//! Turning one failing result into a human-readable summary: a status-code
//! block and a line diff per differing output stream, in a fixed order.

use vstd::prelude::*;

use crate::diff::diff_lines;
use crate::diff::diff_reconstructs;
use crate::diff::line_diff_of;
use crate::diff::render_diff_lines;
use crate::diff::spec_render_lines;
use crate::result::TestResult;
use crate::result::TestResultView;
use crate::result::spec_is_successful;
use crate::strutil::decimal_string;
use crate::strutil::spec_decimal;
use crate::strutil::str_eq;

verus! {

/// The block reporting a status-code mismatch, empty when the codes agree.
pub open spec fn spec_status_part(expected: int, actual: int) -> Seq<char> {
    if expected == actual {
        Seq::empty()
    } else {
        "status code differs:\nexpected: "@ + spec_decimal(expected) + "\nactual: "@
            + spec_decimal(actual) + "\n"@
    }
}

/// The header of a diff block for the stream with the given label.
pub open spec fn spec_diff_header(label: Seq<char>) -> Seq<char> {
    label + " differs:\n--- expected\n+++ actual\n"@
}

/// The block reporting a mismatch of one output stream, empty when the
/// expected and actual texts agree.
pub open spec fn spec_diff_part(label: Seq<char>, expected: Seq<char>, actual: Seq<char>) -> Seq<
    char,
> {
    if expected == actual {
        Seq::empty()
    } else {
        spec_diff_header(label) + spec_render_lines(line_diff_of(expected, actual))
    }
}

/// The full summary of a result: status block, stdout block, stderr block,
/// in this order, each omitted when there is nothing to report.
pub open spec fn spec_summary(r: TestResultView) -> Seq<char> {
    spec_status_part(r.expected_status, r.actual_status) + spec_diff_part(
        "stdout"@,
        r.expected_stdout,
        r.actual_stdout,
    ) + spec_diff_part("stderr"@, r.expected_stderr, r.actual_stderr)
}

/// The summary of a result is empty exactly when the result is successful.
pub proof fn lemma_summary_empty_iff_successful(r: TestResultView)
    ensures
        spec_summary(r).len() == 0 <==> spec_is_successful(r),
{
    reveal_strlit("status code differs:\nexpected: ");
    reveal_strlit(" differs:\n--- expected\n+++ actual\n");
    if r.expected_status != r.actual_status {
        assert(spec_status_part(r.expected_status, r.actual_status).len() > 0);
    }
    if r.expected_stdout != r.actual_stdout {
        assert(spec_diff_part("stdout"@, r.expected_stdout, r.actual_stdout).len() > 0);
    }
    if r.expected_stderr != r.actual_stderr {
        assert(spec_diff_part("stderr"@, r.expected_stderr, r.actual_stderr).len() > 0);
    }
}

/// Builds the status-code block of a summary.
pub fn compute_status(expected: i32, actual: i32) -> (r: String)
    ensures
        r@ == spec_status_part(expected as int, actual as int),
{
    if expected == actual {
        String::new()
    } else {
        let mut s = String::from_str("status code differs:\nexpected: ");
        s.append(decimal_string(expected).as_str());
        s.append("\nactual: ");
        s.append(decimal_string(actual).as_str());
        s.append("\n");
        assert(s@ =~= spec_status_part(expected as int, actual as int));
        s
    }
}

/// Builds the diff block of a summary for one labelled output stream. When
/// the texts differ, the block's diff partitions their lines faithfully.
pub fn compute_diff(name: &str, expected: &str, actual: &str) -> (r: String)
    ensures
        r@ == spec_diff_part(name@, expected@, actual@),
        expected@ != actual@ ==> diff_reconstructs(expected@, actual@),
{
    if str_eq(expected, actual) {
        String::new()
    } else {
        let mut s = String::from_str(name);
        s.append(" differs:\n--- expected\n+++ actual\n");
        let lines = diff_lines(expected, actual);
        let body = render_diff_lines(&lines);
        s.append(body.as_str());
        assert(s@ =~= spec_diff_part(name@, expected@, actual@));
        s
    }
}

/// Builds the full summary of a result; the empty string exactly when the
/// result is successful. Each emitted diff block's lines partition the two
/// texts faithfully.
pub fn compute_summary(result: &TestResult) -> (r: String)
    ensures
        r@ == spec_summary(result@),
        r@.len() == 0 <==> spec_is_successful(result@),
        result@.expected_stdout != result@.actual_stdout ==> diff_reconstructs(
            result@.expected_stdout,
            result@.actual_stdout,
        ),
        result@.expected_stderr != result@.actual_stderr ==> diff_reconstructs(
            result@.expected_stderr,
            result@.actual_stderr,
        ),
{
    let mut s = compute_status(result.expected_status, result.actual_status);
    proof {
        reveal_strlit("stdout");
        reveal_strlit("stderr");
    }
    s.append(
        compute_diff("stdout", result.expected_stdout.as_str(), result.actual_stdout.as_str())
            .as_str(),
    );
    s.append(
        compute_diff("stderr", result.expected_stderr.as_str(), result.actual_stderr.as_str())
            .as_str(),
    );
    proof {
        assert(s@ =~= spec_summary(result@));
        lemma_summary_empty_iff_successful(result@);
    }
    s
}

/// Computes a failure summary for a result.
pub trait Formatter {
    /// The summary this formatter produces for a result.
    spec fn summary_spec(&self, result: TestResultView) -> Seq<char>;

    /// Builds the summary of a result.
    fn compute_summary(&self, result: &TestResult) -> (r: String)
        ensures
            r@ == self.summary_spec(result@),
    ;
}

/// The production [`Formatter`]: status block and line diffs, as literal
/// text.
#[derive(Eq, PartialEq, Debug)]
pub struct DefaultFormatter {}

impl DefaultFormatter {
    /// Constructs the formatter.
    pub fn new() -> (r: Self) {
        DefaultFormatter {  }
    }
}

impl Default for DefaultFormatter {
    fn default() -> (r: Self)
        ensures
            r == (DefaultFormatter {  }),
    {
        Self::new()
    }
}

impl Formatter for DefaultFormatter {
    open spec fn summary_spec(&self, result: TestResultView) -> Seq<char> {
        spec_summary(result)
    }

    fn compute_summary(&self, result: &TestResult) -> (r: String)
        ensures
            r@.len() == 0 <==> spec_is_successful(result@),
            result@.expected_stdout != result@.actual_stdout ==> diff_reconstructs(
                result@.expected_stdout,
                result@.actual_stdout,
            ),
            result@.expected_stderr != result@.actual_stderr ==> diff_reconstructs(
                result@.expected_stderr,
                result@.actual_stderr,
            ),
    {
        compute_summary(result)
    }
}

} // verus!
