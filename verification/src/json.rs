//! JSON text: string literals and the one-line report of a run.

use vstd::prelude::*;

use crate::runner::Metrics;
use crate::text::{
    digit_char, lemma_decimal_reads_back, push_char, push_decimal, spec_decimal, spec_decimal_value,
    spec_digit,
};

verus! {

broadcast use vstd::string::group_string_axioms;

/// How one character appears inside a JSON string literal: quote and
/// backslash escaped, newline, carriage return and tab by their letters,
/// other control characters as `\u00XX`, everything else as itself.
pub open spec fn spec_escape_char(c: char) -> Seq<char> {
    if c == '"' {
        seq!['\\', '"']
    } else if c == '\\' {
        seq!['\\', '\\']
    } else if c == '\n' {
        seq!['\\', 'n']
    } else if c == '\r' {
        seq!['\\', 'r']
    } else if c == '\t' {
        seq!['\\', 't']
    } else if (c as u32) < 0x20 {
        seq!['\\', 'u', '0', '0', spec_digit((c as u32 / 16) as nat), spec_digit((c as u32 % 16) as nat)]
    } else {
        seq![c]
    }
}

/// The escaped form of a sequence of characters.
pub open spec fn spec_escape(s: Seq<char>) -> Seq<char>
    decreases s.len(),
{
    if s.len() == 0 {
        Seq::empty()
    } else {
        spec_escape(s.drop_last()) + spec_escape_char(s.last())
    }
}

/// The JSON string literal of `s`.
pub open spec fn spec_json_str(s: Seq<char>) -> Seq<char> {
    seq!['"'] + spec_escape(s) + seq!['"']
}

fn push_escaped(out: &mut String, c: char)
    ensures
        final(out)@ == old(out)@ + spec_escape_char(c),
{
    if c == '"' {
        push_char(out, '\\');
        push_char(out, '"');
    } else if c == '\\' {
        push_char(out, '\\');
        push_char(out, '\\');
    } else if c == '\n' {
        push_char(out, '\\');
        push_char(out, 'n');
    } else if c == '\r' {
        push_char(out, '\\');
        push_char(out, 'r');
    } else if c == '\t' {
        push_char(out, '\\');
        push_char(out, 't');
    } else if (c as u32) < 0x20 {
        let code = c as u32;
        push_char(out, '\\');
        push_char(out, 'u');
        push_char(out, '0');
        push_char(out, '0');
        push_char(out, digit_char((code / 16) as u8));
        push_char(out, digit_char((code % 16) as u8));
    } else {
        push_char(out, c);
    }
}

/// `s` as a JSON string literal.
pub fn json_str(s: &str) -> (out: String)
    ensures
        out@ == spec_json_str(s@),
{
    let mut out = String::new();
    push_char(&mut out, '"');
    for c in it: s.chars()
        invariant
            it.seq() == s@,
            out@ == seq!['"'] + spec_escape(s@.take(it.index() as int)),
    {
        let ghost before = s@.take(it.index() as int);
        push_escaped(&mut out, c);
        proof {
            let after = s@.take(it.index() + 1);
            assert(after.drop_last() =~= before);
        }
    }
    proof {
        assert(s@.take(s@.len() as int) =~= s@);
    }
    push_char(&mut out, '"');
    out
}

/// The characters of an optional text.
pub open spec fn opt_view(o: Option<&str>) -> Option<Seq<char>> {
    match o {
        Some(s) => Some(s@),
        None => None,
    }
}

/// The value of a hexadecimal digit, in either case.
pub open spec fn spec_hex_value(c: char) -> Option<nat> {
    let v = c as u32;
    if 48 <= v <= 57 {
        Some((v - 48) as nat)
    } else if 97 <= v <= 102 {
        Some((v - 87) as nat)
    } else if 65 <= v <= 70 {
        Some((v - 55) as nat)
    } else {
        None
    }
}

/// `c` in front of a decoded text, or nothing when the rest failed to decode.
pub open spec fn prepend(c: char, rest: Option<Seq<char>>) -> Option<Seq<char>> {
    match rest {
        Some(t) => Some(seq![c] + t),
        None => None,
    }
}

/// What a JSON reader makes of the characters between the quotes of a string
/// literal: the escapes `\"`, `\\`, `\/`, `\b`, `\f`, `\n`, `\r`, `\t` and
/// `\uXXXX`, and every other character as itself; `None` where the text is
/// malformed (an unescaped quote or control character, an unknown or cut-off
/// escape). A `\u` escape of a UTF-16 surrogate half, which JSON pairs up,
/// counts as malformed here.
pub open spec fn spec_json_unescape(s: Seq<char>) -> Option<Seq<char>>
    decreases s.len(),
{
    if s.len() == 0 {
        Some(Seq::empty())
    } else if s[0] == '\\' {
        if s.len() < 2 {
            None
        } else if s[1] == '"' {
            prepend('"', spec_json_unescape(s.skip(2)))
        } else if s[1] == '\\' {
            prepend('\\', spec_json_unescape(s.skip(2)))
        } else if s[1] == '/' {
            prepend('/', spec_json_unescape(s.skip(2)))
        } else if s[1] == 'b' {
            prepend('\u{8}', spec_json_unescape(s.skip(2)))
        } else if s[1] == 'f' {
            prepend('\u{c}', spec_json_unescape(s.skip(2)))
        } else if s[1] == 'n' {
            prepend('\n', spec_json_unescape(s.skip(2)))
        } else if s[1] == 'r' {
            prepend('\r', spec_json_unescape(s.skip(2)))
        } else if s[1] == 't' {
            prepend('\t', spec_json_unescape(s.skip(2)))
        } else if s[1] == 'u' && s.len() >= 6 && spec_hex_value(s[2]) is Some && spec_hex_value(
            s[3],
        ) is Some && spec_hex_value(s[4]) is Some && spec_hex_value(s[5]) is Some {
            let v = spec_hex_value(s[2])->0 * 4096 + spec_hex_value(s[3])->0 * 256
                + spec_hex_value(s[4])->0 * 16 + spec_hex_value(s[5])->0;
            if 0xd800 <= v <= 0xdfff {
                None
            } else {
                prepend(v as char, spec_json_unescape(s.skip(6)))
            }
        } else {
            None
        }
    } else if s[0] == '"' || (s[0] as u32) < 0x20 {
        None
    } else {
        prepend(s[0], spec_json_unescape(s.skip(1)))
    }
}

/// The text that a JSON string literal stands for, or `None` when `t` is no
/// string literal.
pub open spec fn spec_json_string_value(t: Seq<char>) -> Option<Seq<char>> {
    if t.len() >= 2 && t[0] == '"' && t[t.len() - 1] == '"' {
        spec_json_unescape(t.subrange(1, t.len() - 1))
    } else {
        None
    }
}

/// An optional text as JSON: its string literal, or `null`.
pub open spec fn spec_json_opt(o: Option<Seq<char>>) -> Seq<char> {
    match o {
        Some(s) => spec_json_str(s),
        None => "null"@,
    }
}

/// The one-line JSON report of a run.
pub open spec fn spec_report_line(
    tool: Seq<char>,
    property: Seq<char>,
    status: Seq<char>,
    metrics: Metrics,
    counterexample: Option<Seq<char>>,
    error: Option<Seq<char>>,
) -> Seq<char> {
    "{\"status\":"@ + spec_json_str(status) + ",\"tests\":"@ + spec_decimal(metrics.inputs as nat)
        + ",\"discards\":0,\"time\":"@ + spec_json_str(spec_decimal(metrics.elapsed_us as nat) + "us"@)
        + ",\"counterexample\":"@ + spec_json_opt(counterexample) + ",\"error\":"@ + spec_json_opt(error)
        + ",\"tool\":"@ + spec_json_str(tool) + ",\"property\":"@ + spec_json_str(property) + "}"@
}

fn append_json_opt(line: &mut String, o: Option<&str>)
    ensures
        final(line)@ == old(line)@ + spec_json_opt(opt_view(o)),
{
    match o {
        Some(s) => {
            let j = json_str(s);
            line.append(j.as_str());
        },
        None => {
            line.append("null");
        },
    }
}

/// The report of a run as one line of JSON: status, number of inputs tried,
/// elapsed time in microseconds, counterexample, error, tool and property.
pub fn report_line(
    tool: &str,
    property: &str,
    status: &str,
    metrics: Metrics,
    counterexample: Option<&str>,
    error: Option<&str>,
) -> (line: String)
    ensures
        line@ == spec_report_line(tool@, property@, status@, metrics, opt_view(counterexample), opt_view(error)),
{
    let mut line = String::new();
    line.append("{\"status\":");
    line.append(json_str(status).as_str());
    line.append(",\"tests\":");
    push_decimal(&mut line, metrics.inputs as u128);
    line.append(",\"discards\":0,\"time\":");
    let mut time = String::new();
    push_decimal(&mut time, metrics.elapsed_us);
    time.append("us");
    line.append(json_str(time.as_str()).as_str());
    line.append(",\"counterexample\":");
    append_json_opt(&mut line, counterexample);
    line.append(",\"error\":");
    append_json_opt(&mut line, error);
    line.append(",\"tool\":");
    line.append(json_str(tool).as_str());
    line.append(",\"property\":");
    line.append(json_str(property).as_str());
    line.append("}");
    assert(line@ =~= spec_report_line(tool@, property@, status@, metrics, opt_view(counterexample), opt_view(error)));
    line
}

proof fn lemma_escape_char_one_line(c: char)
    ensures
        forall|i: int| 0 <= i < spec_escape_char(c).len() ==> spec_escape_char(c)[i] != '\n',
{
    if (c as u32) < 0x20 && c != '"' && c != '\\' && c != '\n' && c != '\r' && c != '\t' {
        assert(spec_digit((c as u32 / 16) as nat) != '\n');
        assert(spec_digit((c as u32 % 16) as nat) != '\n');
    }
}

proof fn lemma_escape_one_line(s: Seq<char>)
    ensures
        forall|i: int| 0 <= i < spec_escape(s).len() ==> spec_escape(s)[i] != '\n',
    decreases s.len(),
{
    if s.len() > 0 {
        lemma_escape_one_line(s.drop_last());
        lemma_escape_char_one_line(s.last());
        let a = spec_escape(s.drop_last());
        let b = spec_escape_char(s.last());
        let ab = a + b;
        assert forall|i: int| 0 <= i < ab.len() implies #[trigger] ab[i] != '\n' by {
            if i < a.len() {
                assert(ab[i] == a[i]);
            } else {
                assert(ab[i] == b[i - a.len()]);
            }
        }
    }
}

proof fn lemma_decimal_one_line(v: nat)
    ensures
        forall|i: int| 0 <= i < spec_decimal(v).len() ==> spec_decimal(v)[i] != '\n',
    decreases v,
{
    if v >= 10 {
        lemma_decimal_one_line(v / 10);
        let a = spec_decimal(v / 10);
        let d = a.push(spec_digit(v % 10));
        assert forall|i: int| 0 <= i < d.len() implies #[trigger] d[i] != '\n' by {
            if i < a.len() {
                assert(d[i] == a[i]);
            }
        }
    } else {
        assert(spec_decimal(v)[0] == spec_digit(v));
    }
}

proof fn lemma_json_str_one_line(s: Seq<char>)
    ensures
        forall|i: int| 0 <= i < spec_json_str(s).len() ==> spec_json_str(s)[i] != '\n',
{
    lemma_escape_one_line(s);
}

proof fn lemma_json_opt_one_line(o: Option<Seq<char>>)
    ensures
        forall|i: int| 0 <= i < spec_json_opt(o).len() ==> spec_json_opt(o)[i] != '\n',
{
    match o {
        Some(s) => lemma_json_str_one_line(s),
        None => {
            reveal_strlit("null");
        },
    }
}

/// A run's report is a single line: whatever texts go into it, no newline
/// appears before the one that printing it adds.
pub proof fn lemma_report_is_one_line(
    tool: Seq<char>,
    property: Seq<char>,
    status: Seq<char>,
    metrics: Metrics,
    counterexample: Option<Seq<char>>,
    error: Option<Seq<char>>,
)
    ensures
        forall|i: int|
            0 <= i < spec_report_line(tool, property, status, metrics, counterexample, error).len()
                ==> spec_report_line(tool, property, status, metrics, counterexample, error)[i] != '\n',
{
    reveal_strlit("{\"status\":");
    reveal_strlit(",\"tests\":");
    reveal_strlit(",\"discards\":0,\"time\":");
    reveal_strlit("us");
    reveal_strlit(",\"counterexample\":");
    reveal_strlit(",\"error\":");
    reveal_strlit(",\"tool\":");
    reveal_strlit(",\"property\":");
    reveal_strlit("}");
    lemma_json_str_one_line(status);
    lemma_decimal_one_line(metrics.inputs as nat);
    lemma_decimal_one_line(metrics.elapsed_us as nat);
    lemma_json_str_one_line(spec_decimal(metrics.elapsed_us as nat) + "us"@);
    lemma_json_opt_one_line(counterexample);
    lemma_json_opt_one_line(error);
    lemma_json_str_one_line(tool);
    lemma_json_str_one_line(property);
}

proof fn lemma_escape_concat(a: Seq<char>, b: Seq<char>)
    ensures
        spec_escape(a + b) == spec_escape(a) + spec_escape(b),
    decreases b.len(),
{
    if b.len() == 0 {
        assert(a + b =~= a);
        assert(spec_escape(a) + spec_escape(b) =~= spec_escape(a));
    } else {
        lemma_escape_concat(a, b.drop_last());
        assert((a + b).drop_last() =~= a + b.drop_last());
        assert((a + b).last() == b.last());
        assert(spec_escape(a) + spec_escape(b.drop_last()) + spec_escape_char(b.last())
            =~= spec_escape(a) + (spec_escape(b.drop_last()) + spec_escape_char(b.last())));
    }
}

proof fn lemma_escape_front(s: Seq<char>)
    requires
        s.len() > 0,
    ensures
        spec_escape(s) == spec_escape_char(s[0]) + spec_escape(s.drop_first()),
{
    let first = seq![s[0]];
    assert(first + s.drop_first() =~= s);
    lemma_escape_concat(first, s.drop_first());
    assert(first.drop_last() =~= Seq::<char>::empty());
    assert(spec_escape(first.drop_last()) == Seq::<char>::empty());
    assert(first.last() == s[0]);
    assert(spec_escape(first) =~= spec_escape_char(s[0]));
}

proof fn lemma_hex_digit_value(d: nat)
    requires
        d < 16,
    ensures
        spec_hex_value(spec_digit(d)) == Some(d),
        spec_digit(d) as u32 >= 0x20,
{
}

proof fn lemma_unescape_char(c: char, rest: Seq<char>)
    ensures
        spec_json_unescape(spec_escape_char(c) + rest) == prepend(c, spec_json_unescape(rest)),
{
    let e = spec_escape_char(c);
    let t = e + rest;
    assert(t.skip(e.len() as int) =~= rest);
    if c == '"' || c == '\\' || c == '\n' || c == '\r' || c == '\t' {
        assert(t[0] == '\\');
        assert(t[1] == e[1]);
    } else if (c as u32) < 0x20 {
        let hi = (c as u32 / 16) as nat;
        let lo = (c as u32 % 16) as nat;
        lemma_hex_digit_value(hi);
        lemma_hex_digit_value(lo);
        assert(t[0] == '\\' && t[1] == 'u' && t[2] == '0' && t[3] == '0');
        assert(t[4] == spec_digit(hi) && t[5] == spec_digit(lo));
        assert(spec_hex_value('0') == Some(0nat));
        assert(hi * 16 + lo == c as u32);
        assert((hi * 16 + lo) as char == c);
    } else {
        assert(t[0] == c);
        assert(t.skip(1) =~= rest);
    }
}

/// Escaping is undone by a JSON reader.
proof fn lemma_unescape_escape(s: Seq<char>)
    ensures
        spec_json_unescape(spec_escape(s)) == Some(s),
    decreases s.len(),
{
    if s.len() == 0 {
        assert(spec_escape(s) =~= Seq::<char>::empty());
    } else {
        lemma_escape_front(s);
        lemma_unescape_escape(s.drop_first());
        lemma_unescape_char(s[0], spec_escape(s.drop_first()));
        assert(seq![s[0]] + s.drop_first() =~= s);
    }
}

proof fn lemma_escape_char_printable(c: char)
    ensures
        forall|i: int| 0 <= i < spec_escape_char(c).len() ==> spec_escape_char(c)[i] as u32 >= 0x20,
{
    if (c as u32) < 0x20 && c != '"' && c != '\\' && c != '\n' && c != '\r' && c != '\t' {
        lemma_hex_digit_value((c as u32 / 16) as nat);
        lemma_hex_digit_value((c as u32 % 16) as nat);
    }
}

proof fn lemma_escape_printable(s: Seq<char>)
    ensures
        forall|i: int| 0 <= i < spec_escape(s).len() ==> #[trigger] spec_escape(s)[i] as u32 >= 0x20,
    decreases s.len(),
{
    if s.len() > 0 {
        lemma_escape_printable(s.drop_last());
        lemma_escape_char_printable(s.last());
        let a = spec_escape(s.drop_last());
        let b = spec_escape_char(s.last());
        let ab = a + b;
        assert forall|i: int| 0 <= i < ab.len() implies #[trigger] ab[i] as u32 >= 0x20 by {
            if i < a.len() {
                assert(ab[i] == a[i]);
            } else {
                assert(ab[i] == b[i - a.len()]);
            }
        }
    }
}

/// `json_str` yields a valid JSON string literal: it is quoted, holds no
/// control character, and a JSON reader gives back exactly the input.
pub proof fn lemma_json_str_is_valid_literal(s: Seq<char>)
    ensures
        spec_json_str(s)[0] == '"',
        spec_json_str(s)[spec_json_str(s).len() - 1] == '"',
        forall|i: int|
            0 <= i < spec_json_str(s).len() ==> #[trigger] spec_json_str(s)[i] as u32 >= 0x20,
        spec_json_string_value(spec_json_str(s)) == Some(s),
{
    let t = spec_json_str(s);
    let e = spec_escape(s);
    lemma_unescape_escape(s);
    lemma_escape_printable(s);
    assert(t.subrange(1, t.len() - 1) =~= e);
    assert forall|i: int| 0 <= i < t.len() implies #[trigger] t[i] as u32 >= 0x20 by {
        if 1 <= i < t.len() - 1 {
            assert(t[i] == e[i - 1]);
        }
    }
}

/// Where a report puts its numbers: right after `{"status":<status>,"tests":`
/// stands the decimal numeral of `metrics.inputs`, which reads back as that
/// number; after `,"discards":0,"time":` stands the JSON literal of the
/// decimal numeral of `metrics.elapsed_us` followed by `us`, which a JSON
/// reader turns back into that text, whose numeral reads back as the time;
/// then `,"counterexample":` follows.
pub proof fn lemma_report_numbers(
    tool: Seq<char>,
    property: Seq<char>,
    status: Seq<char>,
    metrics: Metrics,
    counterexample: Option<Seq<char>>,
    error: Option<Seq<char>>,
)
    ensures
        ({
            let line = spec_report_line(tool, property, status, metrics, counterexample, error);
            let head = "{\"status\":"@ + spec_json_str(status) + ",\"tests\":"@;
            let tests = spec_decimal(metrics.inputs as nat);
            let at: int = (head.len() + tests.len()) as int;
            let time_key = ",\"discards\":0,\"time\":"@;
            let time_text = spec_decimal(metrics.elapsed_us as nat) + "us"@;
            let time = spec_json_str(time_text);
            let time_at: int = at + time_key.len();
            &&& line.subrange(0, head.len() as int) == head
            &&& line.subrange(head.len() as int, at) == tests
            &&& spec_decimal_value(line.subrange(head.len() as int, at)) == metrics.inputs
            &&& line.subrange(at, time_at) == time_key
            &&& line.subrange(time_at, (time_at + time.len()) as int) == time
            &&& spec_json_string_value(line.subrange(time_at, (time_at + time.len()) as int)) == Some(
                time_text,
            )
            &&& spec_decimal_value(time_text.subrange(0, time_text.len() - 2))
                == metrics.elapsed_us
            &&& time_text.subrange(time_text.len() - 2, time_text.len() as int) == "us"@
            &&& line.subrange((time_at + time.len()) as int, (time_at + time.len() + 18) as int)
                == ",\"counterexample\":"@
        }),
{
    let line = spec_report_line(tool, property, status, metrics, counterexample, error);
    let head = "{\"status\":"@ + spec_json_str(status) + ",\"tests\":"@;
    let tests = spec_decimal(metrics.inputs as nat);
    let time_key = ",\"discards\":0,\"time\":"@;
    let time_text = spec_decimal(metrics.elapsed_us as nat) + "us"@;
    let time = spec_json_str(time_text);
    let cex_key = ",\"counterexample\":"@;
    let p7 = head + tests + time_key + time + cex_key;
    let q8 = p7 + spec_json_opt(counterexample);
    let q9 = q8 + ",\"error\":"@;
    let q10 = q9 + spec_json_opt(error);
    let q11 = q10 + ",\"tool\":"@;
    let q12 = q11 + spec_json_str(tool);
    let q13 = q12 + ",\"property\":"@;
    let q14 = q13 + spec_json_str(property);
    assert(line == q14 + "}"@);
    lemma_prefix_add(q14, "}"@);
    lemma_prefix_add(q13, spec_json_str(property));
    lemma_prefix_trans(line, q14, q13);
    lemma_prefix_add(q12, ",\"property\":"@);
    lemma_prefix_trans(line, q13, q12);
    lemma_prefix_add(q11, spec_json_str(tool));
    lemma_prefix_trans(line, q12, q11);
    lemma_prefix_add(q10, ",\"tool\":"@);
    lemma_prefix_trans(line, q11, q10);
    lemma_prefix_add(q9, spec_json_opt(error));
    lemma_prefix_trans(line, q10, q9);
    lemma_prefix_add(q8, ",\"error\":"@);
    lemma_prefix_trans(line, q9, q8);
    lemma_prefix_add(p7, spec_json_opt(counterexample));
    lemma_prefix_trans(line, q8, p7);
    lemma_prefix_parts(line, p7, head, tests, time_key, time, cex_key);
    reveal_strlit(",\"counterexample\":");
    reveal_strlit("us");
    lemma_decimal_reads_back(metrics.inputs as nat);
    lemma_decimal_reads_back(metrics.elapsed_us as nat);
    lemma_json_str_is_valid_literal(time_text);
    assert(time_text.subrange(0, time_text.len() - 2) =~= spec_decimal(metrics.elapsed_us as nat));
    assert(time_text.subrange(time_text.len() - 2, time_text.len() as int) =~= "us"@);
}

/// `y` is where `x` starts.
pub open spec fn is_prefix(x: Seq<char>, y: Seq<char>) -> bool {
    y.len() <= x.len() && x.subrange(0, y.len() as int) == y
}

proof fn lemma_prefix_add(a: Seq<char>, b: Seq<char>)
    ensures
        is_prefix(a + b, a),
{
    assert((a + b).subrange(0, a.len() as int) =~= a);
}

proof fn lemma_prefix_trans(x: Seq<char>, y: Seq<char>, z: Seq<char>)
    requires
        is_prefix(x, y),
        is_prefix(y, z),
    ensures
        is_prefix(x, z),
{
    assert(x.subrange(0, z.len() as int) =~= y.subrange(0, z.len() as int));
}

proof fn lemma_prefix_parts(
    line: Seq<char>,
    p: Seq<char>,
    a: Seq<char>,
    b: Seq<char>,
    c: Seq<char>,
    d: Seq<char>,
    e: Seq<char>,
)
    requires
        p == a + b + c + d + e,
        is_prefix(line, p),
    ensures
        line.subrange(0, a.len() as int) == a,
        line.subrange(a.len() as int, (a.len() + b.len()) as int) == b,
        line.subrange((a.len() + b.len()) as int, (a.len() + b.len() + c.len()) as int) == c,
        line.subrange(
            (a.len() + b.len() + c.len()) as int,
            (a.len() + b.len() + c.len() + d.len()) as int,
        ) == d,
        line.subrange(
            (a.len() + b.len() + c.len() + d.len()) as int,
            (a.len() + b.len() + c.len() + d.len() + e.len()) as int,
        ) == e,
{
    let la = a.len() as int;
    let lb = b.len() as int;
    let lc = c.len() as int;
    let ld = d.len() as int;
    let le = e.len() as int;
    assert forall|i: int| 0 <= i < p.len() implies line[i] == p[i] by {
        assert(line.subrange(0, p.len() as int)[i] == line[i]);
    }
    assert(line.subrange(0, la) =~= a);
    assert(line.subrange(la, la + lb) =~= b);
    assert(line.subrange(la + lb, la + lb + lc) =~= c);
    assert(line.subrange(la + lb + lc, la + lb + lc + ld) =~= d);
    assert(line.subrange(la + lb + lc + ld, la + lb + lc + ld + le) =~= e);
}

} // verus!
