use pharaoh::formatter::DefaultFormatter;
use pharaoh::printer::ColorPrinter;
use pharaoh::printer::Printer;
use pharaoh::printer::StringSink;
use pharaoh::result::ProcessOutput;
use pharaoh::runner::ExecError;
use pharaoh::runner::Executor;
use pharaoh::runner::Runner;
use pharaoh::testcase::TestCase;
use pharaoh::testcase::TestSuite;
use pharaoh::testcase::TestSuiteCollection;

/// Behaves like a shell running `echo foo`: prints `foo` and succeeds.
struct EchoFooExecutor {}

impl Executor for EchoFooExecutor {
    fn execute(&mut self, _testcase: &TestCase) -> Result<ProcessOutput, ExecError> {
        Ok(ProcessOutput { stdout: "foo\n".to_string(), stderr: "".to_string(), code: Some(0) })
    }
}

/// Behaves like `cat`: copies the case's stdin to stdout and succeeds.
struct CatExecutor {}

impl Executor for CatExecutor {
    fn execute(&mut self, testcase: &TestCase) -> Result<ProcessOutput, ExecError> {
        Ok(ProcessOutput {
            stdout: testcase.stdin.clone(),
            stderr: "".to_string(),
            code: Some(0),
        })
    }
}

#[test]
fn test_failing_testcase_report() {
    // GIVEN a suite whose case expects no output from `echo foo`
    let collection = TestSuiteCollection {
        testsuites: vec![TestSuite {
            name: "foo".to_string(),
            tests: vec![TestCase {
                name: "foo::failure".to_string(),
                cmd: "echo foo".to_string(),
                stdin: "".to_string(),
                stdout: "".to_string(),
                stderr: "".to_string(),
                status: 0,
            }],
        }],
    };
    let mut runner = Runner::with_executor(EchoFooExecutor {});
    let mut printer = ColorPrinter::with_formatter(StringSink::new(), DefaultFormatter::new());

    // WHEN
    let report = runner.run_all_tests(collection).unwrap();
    printer.print_report(&report).unwrap();

    // THEN the case fails and the report shows the inserted line
    assert!(!report.testsuites[0].results[0].is_successful());
    assert_eq!(
        "Running tests for foo\ntest foo::failure ... FAILED\n\nfailures:\n\n---- foo::failure ----\nstdout differs:\n--- expected\n+++ actual\n+foo\n\n",
        printer.sink.text()
    );
}

#[test]
fn test_stdin_reflected_in_stdout() {
    // GIVEN a case that feeds `X\n` to `cat` and expects it back
    let collection = TestSuiteCollection {
        testsuites: vec![TestSuite {
            name: "foo".to_string(),
            tests: vec![TestCase {
                name: "foo::cat should work".to_string(),
                cmd: "cat".to_string(),
                stdin: "X\n".to_string(),
                stdout: "X\n".to_string(),
                stderr: "".to_string(),
                status: 0,
            }],
        }],
    };
    let mut runner = Runner::with_executor(CatExecutor {});
    let mut printer = ColorPrinter::with_formatter(StringSink::new(), DefaultFormatter::new());

    // WHEN
    let report = runner.run_all_tests(collection).unwrap();
    printer.print_report(&report).unwrap();

    // THEN
    assert!(report.testsuites[0].results[0].is_successful());
    assert_eq!(
        "Running tests for foo\ntest foo::cat should work ... OK\n",
        printer.sink.text()
    );
}
