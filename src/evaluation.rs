use vstd::prelude::*;

use crate::lines::{decode_output, decoded_text, lines_of, split_lines, texts_of};
use crate::project::ProjectKind;

verus! {

#[verifier::external_type_specification]
#[verifier::external_body]
pub struct ExRegex(regex::Regex);

/// What a test run's captured output says.
#[derive(Clone, Copy, Debug, PartialEq, Eq, Structural)]
pub enum TestOutcome {
    /// Nothing was captured: no test command ran, and no decision is made.
    NoOutputProduced,
    /// A line of the output reports zero failures.
    Passed,
    /// No line of the output reports zero failures.
    Failed,
}

impl TestOutcome {
    /// The process exit code that the outcome asks for; `None` is the neutral
    /// status, when no decision was made.
    pub open spec fn spec_exit_code(self) -> Option<i32> {
        match self {
            TestOutcome::NoOutputProduced => None,
            TestOutcome::Passed => Some(0),
            TestOutcome::Failed => Some(1),
        }
    }

    /// The process exit code that the outcome asks for: `Some(0)` to allow a
    /// commit, `Some(1)` to block it, `None` for the neutral status.
    pub fn exit_code(&self) -> (r: Option<i32>)
        ensures
            r == self.spec_exit_code(),
    {
        match self {
            TestOutcome::NoOutputProduced => None,
            TestOutcome::Passed => Some(0),
            TestOutcome::Failed => Some(1),
        }
    }
}

/// The phrase that a clean test run prints, in lower case.
pub open spec fn zero_failures_phrase() -> Seq<char> {
    seq!['0', ' ', 'f', 'a', 'i', 'l', 'u', 'r', 'e', 's']
}

/// `c` matches the phrase character `p` when case is ignored, as Unicode
/// simple case folding relates characters: a lower-case ASCII letter also
/// matches its upper-case form, and `s` also matches the long s (U+017F).
pub open spec fn matches_ignoring_case(c: char, p: char) -> bool {
    ||| c == p
    ||| (0x61 <= (p as u32) <= 0x7a && (c as u32) == (p as u32) - 0x20)
    ||| (p == 's' && (c as u32) == 0x17f)
}

/// The phrase "0 failures", in any case, starts at position `i` of `line`.
pub open spec fn zero_failures_at(line: Seq<char>, i: int) -> bool {
    &&& 0 <= i
    &&& i + zero_failures_phrase().len() <= line.len()
    &&& forall|k: int|
        0 <= k < zero_failures_phrase().len() ==> matches_ignoring_case(
            #[trigger] line[i + k],
            zero_failures_phrase()[k],
        )
}

/// The line holds the phrase "0 failures", in any case.
pub open spec fn reports_zero_failures(line: Seq<char>) -> bool {
    exists|i: int| zero_failures_at(line, i)
}

/// Some line reports zero failures.
pub open spec fn some_line_reports_zero_failures(lines: Seq<Seq<char>>) -> bool {
    exists|i: int| 0 <= i < lines.len() && reports_zero_failures(#[trigger] lines[i])
}

/// The outcome that captured output bytes give.
pub open spec fn outcome_of(output: Seq<u8>) -> TestOutcome {
    if output.len() == 0 {
        TestOutcome::NoOutputProduced
    } else if some_line_reports_zero_failures(lines_of(decoded_text(output))) {
        TestOutcome::Passed
    } else {
        TestOutcome::Failed
    }
}

/// The case-insensitive pattern "0 failures", compiled once. The field is
/// private and only `new` sets it, so it always holds that pattern.
struct ZeroFailuresPattern {
    re: regex::Regex,
}

impl ZeroFailuresPattern {
    /// Relies on `regex::Regex::new`: the pattern `(?i)0 failures` is
    /// well-formed, so compiling it succeeds.
    #[verifier::external_body]
    fn new() -> (r: Self) {
        ZeroFailuresPattern { re: regex::Regex::new("(?i)0 failures").unwrap() }
    }

    /// Relies on `regex::Regex::is_match` with the pattern `(?i)0 failures`:
    /// the line holds ten characters in a row that match "0 failures" under
    /// Unicode simple case folding.
    #[verifier::external_body]
    fn is_found_in(&self, line: &str) -> (r: bool)
        ensures
            r == reports_zero_failures(line@),
    {
        self.re.is_match(line)
    }
}

/// Whether any of the lines holds the phrase "0 failures", in any case.
pub fn any_line_reports_zero_failures(lines: &Vec<String>) -> (r: bool)
    ensures
        r == some_line_reports_zero_failures(texts_of(lines@)),
{
    let pattern = ZeroFailuresPattern::new();
    let ghost all = texts_of(lines@);
    let mut i: usize = 0;
    while i < lines.len()
        invariant
            i <= lines.len(),
            all == texts_of(lines@),
            forall|k: int| 0 <= k < i ==> !reports_zero_failures(#[trigger] all[k]),
        decreases lines.len() - i,
    {
        if pattern.is_found_in(lines[i].as_str()) {
            assert(reports_zero_failures(all[i as int]));
            return true;
        }
        i += 1;
    }
    false
}

/// The outcome of a test run together with the lines of its output, in
/// order, for the caller to show.
pub struct Evaluation {
    pub outcome: TestOutcome,
    pub lines: Vec<String>,
}

/// Evaluates the captured output of a test run. Empty output gives
/// `NoOutputProduced`. Otherwise the bytes are decoded as UTF-8 (the empty
/// text where that fails) and split into lines, and the run passed when a
/// line holds "0 failures" in any case.
pub fn evaluate(output: Vec<u8>) -> (r: Evaluation)
    ensures
        r.outcome == outcome_of(output@),
        texts_of(r.lines@) == lines_of(decoded_text(output@)),
{
    if output.len() == 0 {
        proof {
            lemma_empty_output_has_no_lines(output@);
        }
        return Evaluation { outcome: TestOutcome::NoOutputProduced, lines: Vec::new() };
    }
    let text = decode_output(output);
    let lines = split_lines(text.as_str());
    let outcome = if any_line_reports_zero_failures(&lines) {
        TestOutcome::Passed
    } else {
        TestOutcome::Failed
    };
    Evaluation { outcome, lines }
}

/// The program and the argument that run the unit tests of a kind of
/// project; an unrecognized project has none.
pub fn test_command(kind: ProjectKind) -> (r: Option<(&'static str, &'static str)>)
    ensures
        kind == ProjectKind::Unrecognized <==> r is None,
        kind == ProjectKind::Rails ==> r == Some(("bin/rake", "spec")),
        kind == ProjectKind::Phoenix ==> r == Some(("mix", "test")),
{
    match kind {
        ProjectKind::Unrecognized => None,
        ProjectKind::Rails => Some(("bin/rake", "spec")),
        ProjectKind::Phoenix => Some(("mix", "test")),
    }
}

proof fn lemma_empty_output_has_no_lines(output: Seq<u8>)
    requires
        output.len() == 0,
    ensures
        lines_of(decoded_text(output)).len() == 0,
{
    assert(decoded_text(output) =~= Seq::<char>::empty());
}

/// Empty captured output gives `NoOutputProduced`, whose exit status is the
/// neutral one.
pub proof fn lemma_empty_output_is_neutral()
    ensures
        outcome_of(Seq::<u8>::empty()) == TestOutcome::NoOutputProduced,
        outcome_of(Seq::<u8>::empty()).spec_exit_code() is None,
{
}

/// Output with a line that holds "0 failures", in any case, passes, with exit
/// code 0.
pub proof fn lemma_reported_zero_failures_passes(output: Seq<u8>, i: int)
    requires
        0 <= i < lines_of(decoded_text(output)).len(),
        reports_zero_failures(lines_of(decoded_text(output))[i]),
    ensures
        outcome_of(output) == TestOutcome::Passed,
        outcome_of(output).spec_exit_code() == Some(0i32),
{
    if output.len() == 0 {
        lemma_empty_output_has_no_lines(output);
    }
}

/// Non-empty output with no line that holds "0 failures", in any case, fails,
/// with exit code 1.
pub proof fn lemma_no_reported_zero_failures_fails(output: Seq<u8>)
    requires
        output.len() > 0,
        forall|i: int|
            0 <= i < lines_of(decoded_text(output)).len() ==> !reports_zero_failures(
                #[trigger] lines_of(decoded_text(output))[i],
            ),
    ensures
        outcome_of(output) == TestOutcome::Failed,
        outcome_of(output).spec_exit_code() == Some(1i32),
{
}

} // verus!
