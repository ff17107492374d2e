//! The output data model: the captured output of one process, the result of
//! one test case, and the report that collects every result of a run.

use vstd::prelude::*;

use crate::testcase::TestCase;
use crate::testcase::TestCaseView;

verus! {

/// The exit status recorded when a process terminates without a conventional
/// exit code, for example when it is killed by a signal.
pub const SIGNAL_STATUS: i32 = 129;

/// The abstract value of a [`ProcessOutput`].
#[verifier::ext_equal]
pub ghost struct ProcessOutputView {
    pub stdout: Seq<char>,
    pub stderr: Seq<char>,
    pub code: Option<int>,
}

/// Everything captured from one finished process: the decoded output streams
/// and the exit code, if the process ended with one.
#[derive(Clone, Eq, PartialEq, Debug)]
pub struct ProcessOutput {
    /// The decoded standard output.
    pub stdout: String,
    /// The decoded standard error.
    pub stderr: String,
    /// The exit code, or `None` when the process was terminated by a signal.
    pub code: Option<i32>,
}

impl View for ProcessOutput {
    type V = ProcessOutputView;

    open spec fn view(&self) -> ProcessOutputView {
        ProcessOutputView {
            stdout: self.stdout@,
            stderr: self.stderr@,
            code: match self.code {
                Some(c) => Some(c as int),
                None => None,
            },
        }
    }
}

/// The status recorded for an exit code: the code itself, or the signal
/// sentinel when there is none.
pub open spec fn spec_status_of(code: Option<int>) -> int {
    match code {
        Some(c) => c,
        None => SIGNAL_STATUS as int,
    }
}

/// The abstract value of a [`TestResult`].
#[verifier::ext_equal]
pub ghost struct TestResultView {
    pub name: Seq<char>,
    pub expected_stdout: Seq<char>,
    pub actual_stdout: Seq<char>,
    pub expected_stderr: Seq<char>,
    pub actual_stderr: Seq<char>,
    pub expected_status: int,
    pub actual_status: int,
}

/// The outcome of running one test case, pairing every expected value with
/// the value the run actually produced.
#[derive(Clone, Eq, PartialEq, Debug)]
pub struct TestResult {
    /// The suite-qualified name of the test case.
    pub name: String,
    /// The standard output the case expected.
    pub expected_stdout: String,
    /// The standard output the run produced.
    pub actual_stdout: String,
    /// The standard error the case expected.
    pub expected_stderr: String,
    /// The standard error the run produced.
    pub actual_stderr: String,
    /// The exit status the case expected.
    pub expected_status: i32,
    /// The exit status the run produced.
    pub actual_status: i32,
}

impl View for TestResult {
    type V = TestResultView;

    open spec fn view(&self) -> TestResultView {
        TestResultView {
            name: self.name@,
            expected_stdout: self.expected_stdout@,
            actual_stdout: self.actual_stdout@,
            expected_stderr: self.expected_stderr@,
            actual_stderr: self.actual_stderr@,
            expected_status: self.expected_status as int,
            actual_status: self.actual_status as int,
        }
    }
}

/// The result built for a test case from the output its process produced.
pub open spec fn spec_result_of(c: TestCaseView, o: ProcessOutputView) -> TestResultView {
    TestResultView {
        name: c.name,
        expected_stdout: c.stdout,
        actual_stdout: o.stdout,
        expected_stderr: c.stderr,
        actual_stderr: o.stderr,
        expected_status: c.status,
        actual_status: spec_status_of(o.code),
    }
}

/// Whether a result's three expected values all match the actual ones.
pub open spec fn spec_is_successful(r: TestResultView) -> bool {
    r.expected_status == r.actual_status && r.expected_stdout == r.actual_stdout
        && r.expected_stderr == r.actual_stderr
}

impl TestResult {
    /// Combines a test case with the output of its process into a result.
    ///
    /// The expected fields are copied from the case, the actual fields from
    /// the output; a missing exit code is recorded as [`SIGNAL_STATUS`].
    pub fn from_output(testcase: TestCase, output: ProcessOutput) -> (r: TestResult)
        ensures
            r@ == spec_result_of(testcase@, output@),
    {
        let r = TestResult {
            name: testcase.name,
            expected_stdout: testcase.stdout,
            actual_stdout: output.stdout,
            expected_stderr: testcase.stderr,
            actual_stderr: output.stderr,
            expected_status: testcase.status,
            actual_status: match output.code {
                Some(c) => c,
                None => SIGNAL_STATUS,
            },
        };
        assert(r@ =~= spec_result_of(testcase@, output@));
        r
    }

    /// Whether the result is successful: stdout, stderr and exit status all
    /// match their expected values.
    pub fn is_successful(&self) -> (r: bool)
        ensures
            r == spec_is_successful(self@),
    {
        self.expected_status == self.actual_status && self.expected_stdout == self.actual_stdout
            && self.expected_stderr == self.actual_stderr
    }
}

/// A run whose captured output and recorded status equal the case's expected
/// values always yields a successful result.
pub proof fn lemma_matching_output_is_successful(c: TestCaseView, o: ProcessOutputView)
    requires
        o.stdout == c.stdout,
        o.stderr == c.stderr,
        spec_status_of(o.code) == c.status,
    ensures
        spec_is_successful(spec_result_of(c, o)),
{
}

/// The abstract value of a [`TestSuiteResult`].
#[verifier::ext_equal]
pub ghost struct TestSuiteResultView {
    pub name: Seq<char>,
    pub results: Seq<TestResultView>,
}

/// The results of one suite, in the order of the suite's cases.
#[derive(Eq, PartialEq, Debug)]
pub struct TestSuiteResult {
    /// The name of the suite.
    pub name: String,
    /// The results of the suite's cases, in source order.
    pub results: Vec<TestResult>,
}

impl View for TestSuiteResult {
    type V = TestSuiteResultView;

    open spec fn view(&self) -> TestSuiteResultView {
        TestSuiteResultView { name: self.name@, results: self.results@.map_values(|r: TestResult| r@) }
    }
}

/// The abstract value of a [`TestReport`].
#[verifier::ext_equal]
pub ghost struct TestReportView {
    pub testsuites: Seq<TestSuiteResultView>,
}

/// The full outcome of a run: one suite result per input suite, in input
/// order.
#[derive(Eq, PartialEq, Debug)]
pub struct TestReport {
    /// The suite results, mirroring the input collection positionally.
    pub testsuites: Vec<TestSuiteResult>,
}

impl View for TestReport {
    type V = TestReportView;

    open spec fn view(&self) -> TestReportView {
        TestReportView { testsuites: self.testsuites@.map_values(|s: TestSuiteResult| s@) }
    }
}

} // verus!
