//! Driving a whole collection of suites through an executor, producing a
//! report whose suites and results mirror the input order exactly.

use vstd::prelude::*;

use crate::result::ProcessOutput;
use crate::result::ProcessOutputView;
use crate::result::TestReport;
use crate::result::TestReportView;
use crate::result::TestResult;
use crate::result::TestSuiteResult;
use crate::result::TestSuiteResultView;
use crate::result::spec_result_of;
use crate::testcase::TestCase;
use crate::testcase::TestSuite;
use crate::testcase::TestSuiteCollection;
use crate::testcase::TestSuiteCollectionView;
use crate::testcase::TestSuiteView;

verus! {

/// What went wrong while executing one test case's process.
#[derive(Clone, Copy, PartialEq, Eq, Debug)]
pub enum ExecErrorKind {
    /// The shell could not be spawned.
    Spawn,
    /// The case's stdin could not be written to the child.
    StdinWrite,
    /// The child's output was not valid UTF-8 text.
    Decode,
}

/// A fatal failure of the execution infrastructure, as opposed to a test
/// case whose output merely differs from the expected one.
#[derive(PartialEq, Eq, Debug)]
pub struct ExecError {
    /// What failed.
    pub kind: ExecErrorKind,
    /// A human-readable description of the failure.
    pub detail: String,
}

/// A fatal execution failure, together with the case that hit it.
#[derive(PartialEq, Eq, Debug)]
pub struct RunError {
    /// The suite-qualified name of the case whose execution failed.
    pub test_name: String,
    /// The underlying execution failure.
    pub cause: ExecError,
}

/// Runs one test case's command as a process and captures its output.
///
/// Implementations spawn the case's command, feed it the case's stdin, and
/// capture both output streams and the exit status; what comes back depends
/// on the machine, so nothing is promised of it.
pub trait Executor {
    /// Runs the case's command once and captures everything it produced.
    fn execute(&mut self, testcase: &TestCase) -> Result<ProcessOutput, ExecError>;
}

/// The suite result built from a suite and the outputs of its processes.
pub open spec fn spec_suite_result_of(s: TestSuiteView, outs: Seq<ProcessOutputView>) -> TestSuiteResultView {
    TestSuiteResultView {
        name: s.name,
        results: Seq::new(s.tests.len(), |j: int| spec_result_of(s.tests[j], outs[j])),
    }
}

/// The report built from a collection and the outputs of all its processes.
pub open spec fn spec_report_of(
    c: TestSuiteCollectionView,
    outs: Seq<Seq<ProcessOutputView>>,
) -> TestReportView {
    TestReportView {
        testsuites: Seq::new(
            c.testsuites.len(),
            |i: int| spec_suite_result_of(c.testsuites[i], outs[i]),
        ),
    }
}

/// Whether a table of outputs has exactly one entry per test case of the
/// collection.
pub open spec fn outputs_match(c: TestSuiteCollectionView, outs: Seq<Seq<ProcessOutputView>>) -> bool {
    outs.len() == c.testsuites.len() && forall|i: int|
        0 <= i < outs.len() ==> #[trigger] outs[i].len() == c.testsuites[i].tests.len()
}

/// Whether a report mirrors a collection positionally: one suite result per
/// suite under the suite's name, one result per test case under the case's
/// name, each carrying the case's expected values.
pub open spec fn report_mirrors(report: TestReportView, c: TestSuiteCollectionView) -> bool {
    &&& report.testsuites.len() == c.testsuites.len()
    &&& forall|i: int|
        0 <= i < c.testsuites.len() ==> #[trigger] report.testsuites[i].name
            == c.testsuites[i].name
    &&& forall|i: int|
        0 <= i < c.testsuites.len() ==> #[trigger] report.testsuites[i].results.len()
            == c.testsuites[i].tests.len()
    &&& forall|i: int, j: int|
        0 <= i < c.testsuites.len() && 0 <= j < c.testsuites[i].tests.len() ==> {
            let result = #[trigger] report.testsuites[i].results[j];
            let case = c.testsuites[i].tests[j];
            &&& result.name == case.name
            &&& result.expected_stdout == case.stdout
            &&& result.expected_stderr == case.stderr
            &&& result.expected_status == case.status
        }
}

/// The report of a run mirrors its collection positionally: the n-th suite's
/// k-th result is built from the n-th suite's k-th test case, and carries
/// that case's name and expected values.
pub proof fn lemma_report_mirrors_collection(
    c: TestSuiteCollectionView,
    outs: Seq<Seq<ProcessOutputView>>,
)
    requires
        outputs_match(c, outs),
    ensures
        report_mirrors(spec_report_of(c, outs), c),
        forall|i: int, j: int|
            0 <= i < c.testsuites.len() && 0 <= j < c.testsuites[i].tests.len()
                ==> #[trigger] spec_report_of(c, outs).testsuites[i].results[j] == spec_result_of(
                c.testsuites[i].tests[j],
                outs[i][j],
            ),
{
}

/// The report of a run is a function of the collection and the outputs its
/// commands produced: re-running an unchanged collection against commands
/// that produce the same outputs yields a field-for-field identical report.
pub proof fn lemma_rerun_is_identical(
    c: TestSuiteCollectionView,
    outs: Seq<Seq<ProcessOutputView>>,
    first: TestReportView,
    second: TestReportView,
)
    requires
        first == spec_report_of(c, outs),
        second == spec_report_of(c, outs),
    ensures
        first == second,
{
}

fn run_testcase<E: Executor>(executor: &mut E, testcase: &TestCase) -> (r: Result<
    (TestResult, Ghost<ProcessOutputView>),
    RunError,
>)
    ensures
        r matches Ok(p) ==> p.0@ == spec_result_of(testcase@, p.1@),
{
    match executor.execute(testcase) {
        Ok(output) => {
            let ghost out_view = output@;
            let result = TestResult::from_output(testcase.clone(), output);
            Ok((result, Ghost(out_view)))
        },
        Err(cause) => Err(RunError { test_name: testcase.name.clone(), cause }),
    }
}

fn run_testfile<E: Executor>(executor: &mut E, testsuite: &TestSuite) -> (r: Result<
    (TestSuiteResult, Ghost<Seq<ProcessOutputView>>),
    RunError,
>)
    ensures
        r matches Ok(p) ==> p.1@.len() == testsuite@.tests.len() && p.0@ == spec_suite_result_of(
            testsuite@,
            p.1@,
        ),
        testsuite@.tests.len() == 0 ==> r matches Ok(_),
{
    let mut results: Vec<TestResult> = Vec::new();
    let ghost mut outs: Seq<ProcessOutputView> = Seq::empty();
    let mut j: usize = 0;
    while j < testsuite.tests.len()
        invariant
            j <= testsuite.tests.len(),
            outs.len() == j,
            results@.len() == j,
            forall|k: int|
                0 <= k < j ==> #[trigger] results@[k]@ == spec_result_of(
                    testsuite@.tests[k],
                    outs[k],
                ),
        decreases testsuite.tests.len() - j,
    {
        let (result, out_ghost) = run_testcase(executor, &testsuite.tests[j])?;
        results.push(result);
        proof {
            outs = outs.push(out_ghost@);
        }
        j = j + 1;
    }
    let suite_result = TestSuiteResult { name: testsuite.name.clone(), results };
    proof {
        assert(suite_result@.results =~= spec_suite_result_of(testsuite@, outs).results);
        assert(suite_result@ =~= spec_suite_result_of(testsuite@, outs));
    }
    Ok((suite_result, Ghost(outs)))
}

/// Runs every case of every suite, in input order, through the executor.
///
/// On success the report mirrors the collection: one suite result per suite
/// and one result per case, each built from that case and the output its
/// process produced. A mismatching case is never an error; a fatal execution
/// failure aborts the run and no report is produced. An error can only come
/// out of the executor, so a collection with no test case to run always
/// succeeds.
pub fn run_all_tests<E: Executor>(executor: &mut E, collection: &TestSuiteCollection) -> (r:
    Result<TestReport, RunError>)
    ensures
        r matches Ok(report) ==> exists|outs: Seq<Seq<ProcessOutputView>>|
            #[trigger] outputs_match(collection@, outs) && report@ == spec_report_of(
                collection@,
                outs,
            ),
        r matches Ok(report) ==> report_mirrors(report@, collection@),
        (forall|i: int|
            0 <= i < collection@.testsuites.len() ==> (
            #[trigger] collection@.testsuites[i]).tests.len() == 0) ==> r matches Ok(_),
{
    let mut testsuites: Vec<TestSuiteResult> = Vec::new();
    let ghost mut outs: Seq<Seq<ProcessOutputView>> = Seq::empty();
    let mut i: usize = 0;
    while i < collection.testsuites.len()
        invariant
            i <= collection.testsuites.len(),
            outs.len() == i,
            testsuites@.len() == i,
            forall|k: int|
                0 <= k < i ==> #[trigger] outs[k].len() == collection@.testsuites[k].tests.len(),
            forall|k: int|
                0 <= k < i ==> #[trigger] testsuites@[k]@ == spec_suite_result_of(
                    collection@.testsuites[k],
                    outs[k],
                ),
        decreases collection.testsuites.len() - i,
    {
        let (suite_result, suite_outs) = match run_testfile(executor, &collection.testsuites[i]) {
            Ok(p) => p,
            Err(e) => {
                proof {
                    assert(collection@.testsuites[i as int] == collection.testsuites@[i as int]@);
                    assert(collection@.testsuites[i as int].tests.len() != 0);
                }
                return Err(e);
            },
        };
        testsuites.push(suite_result);
        proof {
            outs = outs.push(suite_outs@);
        }
        i = i + 1;
    }
    let report = TestReport { testsuites };
    proof {
        assert(outputs_match(collection@, outs));
        assert(report@.testsuites =~= spec_report_of(collection@, outs).testsuites);
        assert(report@ =~= spec_report_of(collection@, outs));
        lemma_report_mirrors_collection(collection@, outs);
    }
    Ok(report)
}

/// Drives a collection of suites through its executor.
pub struct Runner<E: Executor> {
    executor: E,
}

impl<E: Executor> Runner<E> {
    /// Wraps an executor into a runner.
    pub fn with_executor(executor: E) -> (r: Self) {
        Runner { executor }
    }

    /// Runs every case of every suite, in input order. See [`run_all_tests`].
    pub fn run_all_tests(&mut self, collection: TestSuiteCollection) -> (r: Result<
        TestReport,
        RunError,
    >)
        ensures
            r matches Ok(report) ==> exists|outs: Seq<Seq<ProcessOutputView>>|
                #[trigger] outputs_match(collection@, outs) && report@ == spec_report_of(
                    collection@,
                    outs,
                ),
            r matches Ok(report) ==> report_mirrors(report@, collection@),
            (forall|i: int|
                0 <= i < collection@.testsuites.len() ==> (
                #[trigger] collection@.testsuites[i]).tests.len() == 0) ==> r matches Ok(_),
    {
        run_all_tests(&mut self.executor, &collection)
    }
}

} // verus!
