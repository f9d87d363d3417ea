//! Decisions of the workload runner: counting, verdicts, dispatch and messages.

use vstd::prelude::*;

use crate::etna::{property_null_padding_distinct, PropertyResult};
use crate::json::{report_line, spec_report_line};
use crate::text::{push_char, push_decimal, spec_decimal};

verus! {

/// The largest input length that the randomized runners draw.
pub const MAX_LEN: u8 = 64;

/// Brings a drawn byte into `0..=MAX_LEN`.
pub fn clamp_len(x: u8) -> (r: u8)
    ensures
        r as int == x as int % (MAX_LEN as int + 1),
        r <= MAX_LEN,
{
    x % (MAX_LEN + 1)
}

/// What a run measured: the number of inputs tried and the time taken.
#[derive(Clone, Copy)]
pub struct Metrics {
    pub inputs: u64,
    pub elapsed_us: u128,
}

impl Default for Metrics {
    fn default() -> (m: Metrics)
        ensures
            m.inputs == 0,
            m.elapsed_us == 0,
    {
        Metrics { inputs: 0, elapsed_us: 0 }
    }
}

impl Metrics {
    /// The measurements of two runs together.
    pub fn combine(self, other: Metrics) -> (m: Metrics)
        requires
            self.inputs + other.inputs <= u64::MAX,
            self.elapsed_us + other.elapsed_us <= u128::MAX,
        ensures
            m.inputs == self.inputs + other.inputs,
            m.elapsed_us == self.elapsed_us + other.elapsed_us,
    {
        Metrics { inputs: self.inputs + other.inputs, elapsed_us: self.elapsed_us + other.elapsed_us }
    }
}

/// The status of a run and what it measured.
pub type Outcome = (Result<(), String>, Metrics);

/// A passing or discarded check is no failure; a failing one carries its message.
pub fn to_err(r: PropertyResult) -> (e: Result<(), String>)
    ensures
        match r {
            PropertyResult::Fail(m) => e == Err::<(), String>(m),
            _ => e is Ok,
        },
{
    match r {
        PropertyResult::Pass | PropertyResult::Discard => Ok(()),
        PropertyResult::Fail(m) => Err(m),
    }
}

/// The status kept when `next` follows `total`: the first failure wins.
pub open spec fn spec_merge_status(total: Result<(), String>, next: Result<(), String>) -> Result<(), String> {
    if total is Ok && next is Err {
        next
    } else {
        total
    }
}

/// The status of a run over several properties whose statuses, in order, are
/// `statuses`, merged one after another.
pub open spec fn spec_run_all_status(statuses: Seq<Result<(), String>>) -> Result<(), String>
    decreases statuses.len(),
{
    if statuses.len() == 0 {
        Ok(())
    } else {
        spec_merge_status(spec_run_all_status(statuses.drop_last()), statuses.last())
    }
}

/// A run over several properties fails exactly when one of them fails, and
/// then reports the earliest failure.
pub proof fn lemma_run_all_reports_first_failure(statuses: Seq<Result<(), String>>)
    ensures
        spec_run_all_status(statuses) is Ok <==> forall|i: int|
            0 <= i < statuses.len() ==> #[trigger] statuses[i] is Ok,
        spec_run_all_status(statuses) is Err ==> exists|i: int|
            0 <= i < statuses.len() && spec_run_all_status(statuses) == statuses[i] && (forall|j: int|
                0 <= j < i ==> #[trigger] statuses[j] is Ok),
    decreases statuses.len(),
{
    if statuses.len() > 0 {
        let prefix = statuses.drop_last();
        lemma_run_all_reports_first_failure(prefix);
        assert forall|i: int| 0 <= i < prefix.len() implies prefix[i] == statuses[i] by {}
        if spec_run_all_status(prefix) is Err {
            let i = choose|i: int|
                0 <= i < prefix.len() && spec_run_all_status(prefix) == prefix[i] && (forall|j: int|
                    0 <= j < i ==> #[trigger] prefix[j] is Ok);
            assert(forall|j: int| 0 <= j < i ==> #[trigger] statuses[j] is Ok);
            assert(statuses[i] is Err);
        } else if statuses.last() is Err {
            let i = statuses.len() - 1;
            assert(forall|j: int| 0 <= j < i ==> #[trigger] statuses[j] is Ok);
        }
    }
}

/// Adds the outcome of one more property to the running total of a run over
/// several properties: the measurements add up, the first failure is kept.
pub fn merge_outcome(total: Outcome, next: Outcome) -> (r: Outcome)
    requires
        total.1.inputs + next.1.inputs <= u64::MAX,
        total.1.elapsed_us + next.1.elapsed_us <= u128::MAX,
    ensures
        r.0 == spec_merge_status(total.0, next.0),
        r.1.inputs == total.1.inputs + next.1.inputs,
        r.1.elapsed_us == total.1.elapsed_us + next.1.elapsed_us,
{
    let (total_status, total_metrics) = total;
    let (next_status, next_metrics) = next;
    let metrics = total_metrics.combine(next_metrics);
    let status = if total_status.is_ok() && next_status.is_err() {
        next_status
    } else {
        total_status
    };
    (status, metrics)
}

/// The property names that `All` runs, in order.
pub fn all_properties() -> (names: Vec<&'static str>)
    ensures
        names@.len() == 1,
        names@[0]@ == "NullPaddingDistinct"@,
{
    vec!["NullPaddingDistinct"]
}

/// Whether two texts are the same.
pub fn str_equal(a: &str, b: &str) -> (r: bool)
    ensures
        r == (a@ == b@),
{
    a.to_owned() == b.to_owned()
}

/// Which properties a run asks for.
#[derive(Clone, Copy, Debug, PartialEq, Eq, Structural)]
pub enum PropertyChoice {
    All,
    NullPaddingDistinct,
    Unknown,
}

pub open spec fn spec_choose_property(property: Seq<char>) -> PropertyChoice {
    if property == "All"@ {
        PropertyChoice::All
    } else if property == "NullPaddingDistinct"@ {
        PropertyChoice::NullPaddingDistinct
    } else {
        PropertyChoice::Unknown
    }
}

/// Reads a property name: `All`, `NullPaddingDistinct`, or anything else.
pub fn choose_property(property: &str) -> (c: PropertyChoice)
    ensures
        c == spec_choose_property(property@),
{
    if str_equal(property, "All") {
        PropertyChoice::All
    } else if str_equal(property, "NullPaddingDistinct") {
        PropertyChoice::NullPaddingDistinct
    } else {
        PropertyChoice::Unknown
    }
}

/// The testing tools that a run can drive.
#[derive(Clone, Copy, Debug, PartialEq, Eq, Structural)]
pub enum Tool {
    Etna,
    Proptest,
    Quickcheck,
    Crabcheck,
    Hegel,
}

pub open spec fn spec_choose_tool(tool: Seq<char>) -> Option<Tool> {
    if tool == "etna"@ {
        Some(Tool::Etna)
    } else if tool == "proptest"@ {
        Some(Tool::Proptest)
    } else if tool == "quickcheck"@ {
        Some(Tool::Quickcheck)
    } else if tool == "crabcheck"@ {
        Some(Tool::Crabcheck)
    } else if tool == "hegel"@ {
        Some(Tool::Hegel)
    } else {
        None
    }
}

/// Reads a tool name; `None` for a tool that is not known.
pub fn choose_tool(tool: &str) -> (t: Option<Tool>)
    ensures
        t == spec_choose_tool(tool@),
{
    if str_equal(tool, "etna") {
        Some(Tool::Etna)
    } else if str_equal(tool, "proptest") {
        Some(Tool::Proptest)
    } else if str_equal(tool, "quickcheck") {
        Some(Tool::Quickcheck)
    } else if str_equal(tool, "crabcheck") {
        Some(Tool::Crabcheck)
    } else if str_equal(tool, "hegel") {
        Some(Tool::Hegel)
    } else {
        None
    }
}

/// `Unknown property for <tool>: <property>`.
pub fn unknown_property_message(tool: &str, property: &str) -> (msg: String)
    ensures
        msg@ == "Unknown property for "@ + tool@ + ": "@ + property@,
{
    let mut msg = String::new();
    msg.append("Unknown property for ");
    msg.append(tool);
    msg.append(": ");
    msg.append(property);
    msg
}

/// `Unknown tool: <tool>`.
pub fn unknown_tool_message(tool: &str) -> (msg: String)
    ensures
        msg@ == "Unknown tool: "@ + tool@,
{
    let mut msg = String::new();
    msg.append("Unknown tool: ");
    msg.append(tool);
    msg
}

/// `adapter panic: <msg>`.
pub fn adapter_panic_error(msg: &str) -> (err: String)
    ensures
        err@ == "adapter panic: "@ + msg@,
{
    let mut err = String::new();
    err.append("adapter panic: ");
    err.append(msg);
    err
}

/// A check's verdict as the randomized runner with optional verdicts takes
/// it: passed, failed, or no verdict for a discarded input.
pub fn crabcheck_verdict(r: &PropertyResult) -> (v: Option<bool>)
    ensures
        v == match r {
            PropertyResult::Pass => Some(true),
            PropertyResult::Fail(_) => Some(false),
            PropertyResult::Discard => None::<bool>,
        },
{
    match r {
        PropertyResult::Pass => Some(true),
        PropertyResult::Fail(_) => Some(false),
        PropertyResult::Discard => None,
    }
}

/// How a testing tool takes a check's verdict.
#[derive(Clone, Copy, Debug, PartialEq, Eq, Structural)]
pub enum CheckVerdict {
    Passed,
    Discarded,
    Failed,
}

/// A check's verdict as a testing tool takes it: a pass, a discarded input,
/// or a failure.
pub fn check_verdict(r: &PropertyResult) -> (v: CheckVerdict)
    ensures
        v == match r {
            PropertyResult::Pass => CheckVerdict::Passed,
            PropertyResult::Fail(_) => CheckVerdict::Failed,
            PropertyResult::Discard => CheckVerdict::Discarded,
        },
{
    match r {
        PropertyResult::Pass => CheckVerdict::Passed,
        PropertyResult::Fail(_) => CheckVerdict::Failed,
        PropertyResult::Discard => CheckVerdict::Discarded,
    }
}

/// The text of a pair of lengths: `<n> <m>`.
pub open spec fn spec_len_pair_text(n: u8, m: u8) -> Seq<char> {
    spec_decimal(n as nat) + seq![' '] + spec_decimal(m as nat)
}

/// `<n> <m>`.
pub fn len_pair_text(n: u8, m: u8) -> (t: String)
    ensures
        t@ == spec_len_pair_text(n, m),
{
    let mut t = String::new();
    push_decimal(&mut t, n as u128);
    push_char(&mut t, ' ');
    push_decimal(&mut t, m as u128);
    t
}

/// The counterexample of a pair of lengths: `(<n> <m>)`.
pub fn pair_counterexample(n: u8, m: u8) -> (t: String)
    ensures
        t@ == seq!['('] + spec_len_pair_text(n, m) + seq![')'],
{
    let mut t = String::new();
    push_char(&mut t, '(');
    push_decimal(&mut t, n as u128);
    push_char(&mut t, ' ');
    push_decimal(&mut t, m as u128);
    push_char(&mut t, ')');
    t
}

/// The texts of `parts` joined with `sep` between each two.
pub open spec fn spec_join(parts: Seq<Seq<char>>, sep: Seq<char>) -> Seq<char>
    decreases parts.len(),
{
    if parts.len() == 0 {
        Seq::empty()
    } else if parts.len() == 1 {
        parts[0]
    } else {
        spec_join(parts.drop_last(), sep) + sep + parts.last()
    }
}

/// The counterexample of a failed run from the arguments it reported:
/// `(<arg> <arg> ...)`.
pub fn failed_arguments_message(arguments: &Vec<String>) -> (msg: String)
    ensures
        msg@ == seq!['('] + spec_join(arguments@.map_values(|a: String| a@), seq![' '])
            + seq![')'],
{
    let ghost parts = arguments@.map_values(|a: String| a@);
    let mut joined = String::new();
    let n = arguments.len();
    for i in 0..n
        invariant
            n == arguments@.len(),
            parts == arguments@.map_values(|a: String| a@),
            joined@ == spec_join(parts.take(i as int), seq![' ']),
    {
        if i != 0 {
            push_char(&mut joined, ' ');
        }
        joined.append(arguments[i].as_str());
        proof {
            assert(parts.take(i + 1).drop_last() =~= parts.take(i as int));
        }
    }
    assert(parts.take(n as int) =~= parts);
    let mut msg = String::new();
    push_char(&mut msg, '(');
    msg.append(joined.as_str());
    push_char(&mut msg, ')');
    msg
}

/// `gave up: passed=<passed>, discarded=<discarded>`.
pub fn gave_up_message(passed: u64, discarded: u64) -> (msg: String)
    ensures
        msg@ == "gave up: passed="@ + spec_decimal(passed as nat) + ", discarded="@
            + spec_decimal(discarded as nat),
{
    let mut msg = String::new();
    msg.append("gave up: passed=");
    push_decimal(&mut msg, passed as u128);
    msg.append(", discarded=");
    push_decimal(&mut msg, discarded as u128);
    msg
}

/// `msg` without `prefix` where it starts with it, else `msg` itself.
pub open spec fn spec_strip_prefix_or_keep(msg: Seq<char>, prefix: Seq<char>) -> Seq<char> {
    if prefix.len() <= msg.len() && msg.take(prefix.len() as int) == prefix {
        msg.skip(prefix.len() as int)
    } else {
        msg
    }
}

pub fn strip_prefix_or_keep(msg: &str, prefix: &str) -> (r: String)
    ensures
        r@ == spec_strip_prefix_or_keep(msg@, prefix@),
{
    let len = msg.unicode_len();
    let plen = prefix.unicode_len();
    if plen <= len && str_equal(msg.substring_char(0, plen), prefix) {
        msg.substring_char(plen, len).to_owned()
    } else {
        msg.to_owned()
    }
}

/// The failure that a property-based run reports, without its generic
/// `Property test failed: ` lead-in.
pub fn hegel_failure_message(msg: &str) -> (r: String)
    ensures
        r@ == spec_strip_prefix_or_keep(msg@, "Property test failed: "@),
{
    strip_prefix_or_keep(msg, "Property test failed: ")
}

/// The deterministic run: the canonical witness, lengths 0 and 1.
pub fn run_etna_witness() -> (r: Result<(), String>)
    ensures
        r is Ok,
{
    to_err(property_null_padding_distinct((0, 1)))
}

/// The report of a finished run: `passed`, or `failed` with the failure as
/// counterexample.
pub fn outcome_report(tool: &str, property: &str, outcome: &Outcome) -> (line: String)
    ensures
        line@ == match outcome.0 {
            Ok(_) => spec_report_line(tool@, property@, "passed"@, outcome.1, None, None),
            Err(msg) => spec_report_line(tool@, property@, "failed"@, outcome.1, Some(msg@), None),
        },
{
    match &outcome.0 {
        Ok(_) => report_line(tool, property, "passed", outcome.1, None, None),
        Err(msg) => report_line(tool, property, "failed", outcome.1, Some(msg.as_str()), None),
    }
}

/// The report of a run that broke down: `aborted`, nothing measured, and the
/// panic as error.
pub fn aborted_report(tool: &str, property: &str, panic_msg: &str) -> (line: String)
    ensures
        line@ == spec_report_line(
            tool@,
            property@,
            "aborted"@,
            Metrics { inputs: 0, elapsed_us: 0 },
            None,
            Some("adapter panic: "@ + panic_msg@),
        ),
{
    let err = adapter_panic_error(panic_msg);
    report_line(tool, property, "aborted", Metrics::default(), None, Some(err.as_str()))
}

} // verus!
