use ahash::etna::PropertyResult;
use ahash::json::{json_str, report_line};
use ahash::runner::{
    aborted_report, adapter_panic_error, check_verdict, CheckVerdict, all_properties, choose_property, choose_tool, clamp_len,
    crabcheck_verdict, failed_arguments_message, gave_up_message, hegel_failure_message,
    len_pair_text, merge_outcome, outcome_report, pair_counterexample, run_etna_witness,
    strip_prefix_or_keep, to_err, unknown_property_message, unknown_tool_message, Metrics,
    PropertyChoice, Tool, MAX_LEN,
};

fn metrics(inputs: u64, elapsed_us: u128) -> Metrics {
    Metrics { inputs, elapsed_us }
}

#[test]
fn lengths_are_brought_into_range() {
    assert_eq!(clamp_len(0), 0);
    assert_eq!(clamp_len(64), 64);
    assert_eq!(clamp_len(65), 0);
    assert_eq!(clamp_len(200), 5);
    assert_eq!(clamp_len(255), 60);
    for x in 0..=255u8 {
        assert!(clamp_len(x) <= MAX_LEN);
    }
}

#[test]
fn metrics_add_up() {
    let m = metrics(3, 40).combine(metrics(7, 2));
    assert_eq!((m.inputs, m.elapsed_us), (10, 42));
    let d = Metrics::default();
    assert_eq!((d.inputs, d.elapsed_us), (0, 0));
}

#[test]
fn failures_become_errors() {
    assert_eq!(to_err(PropertyResult::Pass), Ok(()));
    assert_eq!(to_err(PropertyResult::Discard), Ok(()));
    assert_eq!(to_err(PropertyResult::Fail("boom".to_string())), Err("boom".to_string()));
}

#[test]
fn run_all_keeps_the_first_failure() {
    let mut total = (Ok(()), Metrics::default());
    total = merge_outcome(total, (Ok(()), metrics(1, 10)));
    total = merge_outcome(total, (Err("first".to_string()), metrics(2, 20)));
    total = merge_outcome(total, (Err("second".to_string()), metrics(3, 30)));
    total = merge_outcome(total, (Ok(()), metrics(4, 40)));
    assert_eq!(total.0, Err("first".to_string()));
    assert_eq!((total.1.inputs, total.1.elapsed_us), (10, 100));
}

#[test]
fn run_all_passes_when_every_property_passes() {
    let total = merge_outcome((Ok(()), metrics(1, 1)), (Ok(()), metrics(1, 1)));
    assert_eq!(total.0, Ok(()));
}

#[test]
fn the_property_list() {
    assert_eq!(all_properties(), vec!["NullPaddingDistinct"]);
}

#[test]
fn property_names() {
    assert_eq!(choose_property("All"), PropertyChoice::All);
    assert_eq!(choose_property("NullPaddingDistinct"), PropertyChoice::NullPaddingDistinct);
    assert_eq!(choose_property("nullpaddingdistinct"), PropertyChoice::Unknown);
    assert_eq!(choose_property(""), PropertyChoice::Unknown);
}

#[test]
fn tool_names() {
    assert_eq!(choose_tool("etna"), Some(Tool::Etna));
    assert_eq!(choose_tool("proptest"), Some(Tool::Proptest));
    assert_eq!(choose_tool("quickcheck"), Some(Tool::Quickcheck));
    assert_eq!(choose_tool("crabcheck"), Some(Tool::Crabcheck));
    assert_eq!(choose_tool("hegel"), Some(Tool::Hegel));
    assert_eq!(choose_tool("afl"), None);
}

#[test]
fn unknown_names_are_reported() {
    assert_eq!(unknown_property_message("etna", "Foo"), "Unknown property for etna: Foo");
    assert_eq!(unknown_tool_message("afl"), "Unknown tool: afl");
    assert_eq!(adapter_panic_error("oops"), "adapter panic: oops");
}

#[test]
fn crabcheck_verdicts() {
    assert_eq!(crabcheck_verdict(&PropertyResult::Pass), Some(true));
    assert_eq!(crabcheck_verdict(&PropertyResult::Fail("x".to_string())), Some(false));
    assert_eq!(crabcheck_verdict(&PropertyResult::Discard), None);
}

#[test]
fn counterexample_texts() {
    assert_eq!(len_pair_text(3, 64), "3 64");
    assert_eq!(pair_counterexample(0, 1), "(0 1)");
    assert_eq!(failed_arguments_message(&vec!["3 64".to_string()]), "(3 64)");
    assert_eq!(failed_arguments_message(&vec!["a".to_string(), "b".to_string(), "c".to_string()]), "(a b c)");
    assert_eq!(failed_arguments_message(&vec![]), "()");
    assert_eq!(gave_up_message(12, 1000), "gave up: passed=12, discarded=1000");
}

#[test]
fn failure_lead_in_is_stripped() {
    assert_eq!(hegel_failure_message("Property test failed: (3 4)"), "(3 4)");
    assert_eq!(hegel_failure_message("(3 4)"), "(3 4)");
    assert_eq!(hegel_failure_message("Property test"), "Property test");
    assert_eq!(strip_prefix_or_keep("ääb", "ä"), "äb");
    assert_eq!(strip_prefix_or_keep("abc", ""), "abc");
}

#[test]
fn deterministic_run_passes() {
    assert_eq!(run_etna_witness(), Ok(()));
}

#[test]
fn json_string_literals() {
    assert_eq!(json_str("plain"), "\"plain\"");
    assert_eq!(json_str(""), "\"\"");
    assert_eq!(json_str("a\"b\\c"), "\"a\\\"b\\\\c\"");
    assert_eq!(json_str("l1\nl2\r\t"), "\"l1\\nl2\\r\\t\"");
    assert_eq!(json_str("\u{1}\u{1f}"), "\"\\u0001\\u001f\"");
    assert_eq!(json_str("é ü"), "\"é ü\"");
}

#[test]
fn report_lines() {
    assert_eq!(
        report_line("etna", "NullPaddingDistinct", "passed", metrics(1, 57), None, None),
        "{\"status\":\"passed\",\"tests\":1,\"discards\":0,\"time\":\"57us\",\"counterexample\":null,\"error\":null,\"tool\":\"etna\",\"property\":\"NullPaddingDistinct\"}"
    );
    assert_eq!(
        report_line("proptest", "All", "failed", metrics(200, 0), Some("(1 2)"), Some("e\n")),
        "{\"status\":\"failed\",\"tests\":200,\"discards\":0,\"time\":\"0us\",\"counterexample\":\"(1 2)\",\"error\":\"e\\n\",\"tool\":\"proptest\",\"property\":\"All\"}"
    );
}

#[test]
fn outcome_reports() {
    let ok = (Ok(()), metrics(5, 9));
    assert_eq!(
        outcome_report("crabcheck", "All", &ok),
        "{\"status\":\"passed\",\"tests\":5,\"discards\":0,\"time\":\"9us\",\"counterexample\":null,\"error\":null,\"tool\":\"crabcheck\",\"property\":\"All\"}"
    );
    let failed = (Err("(0 1)".to_string()), metrics(2, 3));
    assert_eq!(
        outcome_report("hegel", "NullPaddingDistinct", &failed),
        "{\"status\":\"failed\",\"tests\":2,\"discards\":0,\"time\":\"3us\",\"counterexample\":\"(0 1)\",\"error\":null,\"tool\":\"hegel\",\"property\":\"NullPaddingDistinct\"}"
    );
    assert_eq!(
        aborted_report("etna", "All", "bad"),
        "{\"status\":\"aborted\",\"tests\":0,\"discards\":0,\"time\":\"0us\",\"counterexample\":null,\"error\":\"adapter panic: bad\",\"tool\":\"etna\",\"property\":\"All\"}"
    );
}

#[test]
fn reports_are_single_lines() {
    let line = report_line("t\n", "p\r\n", "s", metrics(1, 1), Some("a\nb"), Some("\n"));
    assert!(!line.contains('\n'));
}

#[test]
fn check_verdicts() {
    assert_eq!(check_verdict(&PropertyResult::Pass), CheckVerdict::Passed);
    assert_eq!(check_verdict(&PropertyResult::Discard), CheckVerdict::Discarded);
    assert_eq!(check_verdict(&PropertyResult::Fail("x".to_string())), CheckVerdict::Failed);
}

#[test]
fn json_literals_hold_no_control_characters() {
    let input = "a\u{0}b\u{7}c\u{1b}\"\\\n\t\u{7f}é";
    let lit = json_str(input);
    assert!(lit.starts_with('"') && lit.ends_with('"'));
    assert!(lit.chars().all(|c| (c as u32) >= 0x20));
    assert_eq!(lit, "\"a\\u0000b\\u0007c\\u001b\\\"\\\\\\n\\t\u{7f}é\"");
}
