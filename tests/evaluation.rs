use precommit::evaluation::{any_line_reports_zero_failures, evaluate, TestOutcome};
use precommit::lines::{decode_output, split_lines, string_of_chars};

fn lines(list: &[&str]) -> Vec<String> {
    list.iter().map(|s| s.to_string()).collect()
}

#[test]
fn rails_run_with_zero_failures_passes() {
    let output = b"1) foo\n2) bar\n\n4 examples, 0 failures\n".to_vec();
    let r = evaluate(output);
    assert_eq!(r.lines, lines(&["1) foo", "2) bar", "", "4 examples, 0 failures"]));
    assert_eq!(r.outcome, TestOutcome::Passed);
    assert_eq!(r.outcome.exit_code(), Some(0));
}

#[test]
fn phoenix_run_with_a_failure_fails() {
    let r = evaluate(b"1 test, 1 failure\n".to_vec());
    assert_eq!(r.lines, lines(&["1 test, 1 failure"]));
    assert_eq!(r.outcome, TestOutcome::Failed);
    assert_eq!(r.outcome.exit_code(), Some(1));
}

#[test]
fn empty_output_is_neutral() {
    let r = evaluate(Vec::new());
    assert_eq!(r.outcome, TestOutcome::NoOutputProduced);
    assert!(r.lines.is_empty());
    assert_eq!(r.outcome.exit_code(), None);
}

#[test]
fn zero_failures_in_any_case_passes() {
    for text in ["0 Failures", "  0 failures in 12 tests", "0 FAILURES", "x\n0 fAiLuReS\ny"] {
        let r = evaluate(text.as_bytes().to_vec());
        assert_eq!(r.outcome, TestOutcome::Passed, "{}", text);
        assert_eq!(r.outcome.exit_code(), Some(0));
    }
}

#[test]
fn long_s_folds_to_s() {
    let r = evaluate("0 failure\u{17f}".as_bytes().to_vec());
    assert_eq!(r.outcome, TestOutcome::Passed);
}

#[test]
fn failures_count_without_zero_fails() {
    let r = evaluate(b"3 failures, 0 errors\n".to_vec());
    assert_eq!(r.outcome, TestOutcome::Failed);
    assert_eq!(r.outcome.exit_code(), Some(1));
}

#[test]
fn phrase_is_matched_as_a_substring() {
    let r = evaluate(b"10 failures\n".to_vec());
    assert_eq!(r.outcome, TestOutcome::Passed);
}

#[test]
fn phrase_split_across_lines_fails() {
    let r = evaluate(b"4 examples, 0\nfailures\n".to_vec());
    assert_eq!(r.outcome, TestOutcome::Failed);
}

#[test]
fn evaluation_is_repeatable() {
    let output = b"12 tests, 0 failures\n".to_vec();
    let first = evaluate(output.clone());
    let second = evaluate(output);
    assert_eq!(first.outcome, second.outcome);
    assert_eq!(first.lines, second.lines);
    let bad = b"2 failures\n".to_vec();
    assert_eq!(evaluate(bad.clone()).outcome, evaluate(bad).outcome);
}

#[test]
fn invalid_utf8_reads_as_empty_text() {
    let r = evaluate(vec![0x30, 0x20, 0xff, 0xfe]);
    assert!(r.lines.is_empty());
    assert_eq!(r.outcome, TestOutcome::Failed);
    assert_eq!(decode_output(vec![0xc0, 0x80]), "");
}

#[test]
fn valid_utf8_is_decoded() {
    assert_eq!(decode_output("h\u{e9}llo".as_bytes().to_vec()), "h\u{e9}llo");
    assert_eq!(decode_output(Vec::new()), "");
}

#[test]
fn line_endings() {
    assert_eq!(split_lines("a\r\nb\n"), lines(&["a", "b"]));
    assert_eq!(split_lines("a\nb"), lines(&["a", "b"]));
    assert_eq!(split_lines("\n"), lines(&[""]));
    assert_eq!(split_lines(""), lines(&[]));
    assert_eq!(split_lines("a\n\nb\n\n"), lines(&["a", "", "b", ""]));
    assert_eq!(split_lines("a\rb\r\n"), lines(&["a\rb"]));
    assert_eq!(split_lines("x\r"), lines(&["x\r"]));
}

#[test]
fn any_line_check() {
    assert!(any_line_reports_zero_failures(&lines(&["a", "5 tests, 0 failures"])));
    assert!(!any_line_reports_zero_failures(&lines(&["a", "0 errors"])));
    assert!(!any_line_reports_zero_failures(&Vec::new()));
    assert!(!any_line_reports_zero_failures(&lines(&["0  failures", "0failures"])));
}

#[test]
fn exit_codes() {
    assert_eq!(TestOutcome::NoOutputProduced.exit_code(), None);
    assert_eq!(TestOutcome::Passed.exit_code(), Some(0));
    assert_eq!(TestOutcome::Failed.exit_code(), Some(1));
}

#[test]
fn chars_to_string() {
    assert_eq!(string_of_chars(&vec!['a', '\u{e9}', 'c']), "a\u{e9}c");
    assert_eq!(string_of_chars(&Vec::new()), "");
}
