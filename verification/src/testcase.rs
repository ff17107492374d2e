//! The input data model: test cases, suites of cases, and the collection of
//! suites that a whole run works through.

use vstd::prelude::*;

verus! {

/// The abstract value of a [`TestCase`].
#[verifier::ext_equal]
pub ghost struct TestCaseView {
    pub name: Seq<char>,
    pub cmd: Seq<char>,
    pub stdin: Seq<char>,
    pub stdout: Seq<char>,
    pub stderr: Seq<char>,
    pub status: int,
}

/// The specification for a single test run: a shell command, the input it is
/// fed, and the output and exit status it is expected to produce.
#[derive(Eq, PartialEq, Debug)]
pub struct TestCase {
    /// The suite-qualified name of the test case.
    pub name: String,
    /// The shell command line to execute.
    pub cmd: String,
    /// The text fed to the command's standard input.
    pub stdin: String,
    /// The expected standard output.
    pub stdout: String,
    /// The expected standard error.
    pub stderr: String,
    /// The expected exit status.
    pub status: i32,
}

impl View for TestCase {
    type V = TestCaseView;

    open spec fn view(&self) -> TestCaseView {
        TestCaseView {
            name: self.name@,
            cmd: self.cmd@,
            stdin: self.stdin@,
            stdout: self.stdout@,
            stderr: self.stderr@,
            status: self.status as int,
        }
    }
}

impl Clone for TestCase {
    fn clone(&self) -> (r: Self)
        ensures
            r == *self,
    {
        TestCase {
            name: self.name.clone(),
            cmd: self.cmd.clone(),
            stdin: self.stdin.clone(),
            stdout: self.stdout.clone(),
            stderr: self.stderr.clone(),
            status: self.status,
        }
    }
}

/// The abstract value of a [`TestSuite`].
#[verifier::ext_equal]
pub ghost struct TestSuiteView {
    pub name: Seq<char>,
    pub tests: Seq<TestCaseView>,
}

/// A named, ordered group of test cases, typically all the cases read from
/// one specification file.
#[derive(Eq, PartialEq, Debug)]
pub struct TestSuite {
    /// The name of the suite.
    pub name: String,
    /// The cases of the suite, in source order.
    pub tests: Vec<TestCase>,
}

impl View for TestSuite {
    type V = TestSuiteView;

    open spec fn view(&self) -> TestSuiteView {
        TestSuiteView { name: self.name@, tests: self.tests@.map_values(|t: TestCase| t@) }
    }
}

/// The abstract value of a [`TestSuiteCollection`].
#[verifier::ext_equal]
pub ghost struct TestSuiteCollectionView {
    pub testsuites: Seq<TestSuiteView>,
}

/// An ordered group of test suites: the sole input of a run.
#[derive(Eq, PartialEq, Debug)]
pub struct TestSuiteCollection {
    /// The suites of the collection, in the order they were gathered.
    pub testsuites: Vec<TestSuite>,
}

impl View for TestSuiteCollection {
    type V = TestSuiteCollectionView;

    open spec fn view(&self) -> TestSuiteCollectionView {
        TestSuiteCollectionView { testsuites: self.testsuites@.map_values(|s: TestSuite| s@) }
    }
}

impl TestSuiteCollection {
    /// Wraps an ordered group of suites into a collection.
    pub fn new(testsuites: Vec<TestSuite>) -> (r: Self)
        ensures
            r@.testsuites == testsuites@.map_values(|s: TestSuite| s@),
    {
        TestSuiteCollection { testsuites }
    }
}

} // verus!
