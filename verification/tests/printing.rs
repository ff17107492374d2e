use pharaoh::formatter::DefaultFormatter;
use pharaoh::printer::ColorPrinter;
use pharaoh::printer::Printer;
use pharaoh::printer::StringSink;
use pharaoh::printer::format_oneliner;
use pharaoh::result::TestReport;
use pharaoh::result::TestResult;
use pharaoh::result::TestSuiteResult;

fn result_from_name(name: &str) -> TestResult {
    TestResult {
        name: name.to_string(),
        expected_stdout: "".to_string(),
        actual_stdout: "".to_string(),
        expected_stderr: "".to_string(),
        actual_stderr: "".to_string(),
        expected_status: 0,
        actual_status: 0,
    }
}

#[test]
fn test_format_oneliner_success() {
    // GIVEN
    let result = result_from_name("mysuite::mytest");
    let success = true;

    // WHEN
    let oneliner = format_oneliner(&result, success);

    // THEN
    assert_eq!(format!("test mysuite::mytest ... {}", "OK"), oneliner);
}

#[test]
fn test_format_oneliner_failure() {
    // GIVEN
    let result = result_from_name("anothersuite::anothertest");
    let success = false;

    // WHEN
    let oneliner = format_oneliner(&result, success);

    // THEN
    assert_eq!(
        format!("test anothersuite::anothertest ... {}", "FAILED"),
        oneliner
    );
}

#[test]
fn test_new_calls_with_formatter() {
    // GIVEN

    // WHEN
    let printer = ColorPrinter::new(StringSink::new());

    // THEN
    assert_eq!(DefaultFormatter::new(), printer.formatter);
    assert_eq!("", printer.sink.text());
}

#[test]
fn test_print_report_empty() {
    // GIVEN
    let report = TestReport { testsuites: vec![] };
    let mut printer = ColorPrinter::with_formatter(StringSink::new(), DefaultFormatter::new());

    // WHEN
    printer.print_report(&report).unwrap();

    // THEN
    assert_eq!("No test case found. Exiting.\n", printer.sink.text());
}

#[test]
fn test_print_report_successful_test() {
    // GIVEN
    let report = TestReport {
        testsuites: vec![TestSuiteResult {
            name: "mysuite".to_string(),
            results: vec![result_from_name("mytestcase")],
        }],
    };
    let mut printer = ColorPrinter::with_formatter(StringSink::new(), DefaultFormatter::new());

    // WHEN
    printer.print_report(&report).unwrap();

    // THEN
    assert_eq!(
        format!("Running tests for mysuite\ntest mytestcase ... {ok}\n", ok = "OK"),
        printer.sink.text()
    );
}

#[test]
fn test_print_report_failing_test() {
    // GIVEN
    let mut failing_test = result_from_name("failingtest");
    failing_test.expected_stdout = "foo".to_string();
    failing_test.actual_stdout = "bar".to_string();

    let report = TestReport {
        testsuites: vec![TestSuiteResult {
            name: "mysuite".to_string(),
            results: vec![failing_test],
        }],
    };
    let mut printer = ColorPrinter::with_formatter(StringSink::new(), DefaultFormatter::new());

    // WHEN
    printer.print_report(&report).unwrap();

    // THEN
    assert_eq!(
        format!(
            "Running tests for mysuite\ntest failingtest ... {failed}\n\nfailures:\n\n---- failingtest ----\nstdout differs:\n--- expected\n+++ actual\n-foo\n+bar\n\n",
            failed = "FAILED"
        ),
        printer.sink.text()
    );
}

#[test]
fn test_print_report_suite_without_cases() {
    // GIVEN
    let report = TestReport {
        testsuites: vec![TestSuiteResult { name: "test".to_string(), results: vec![] }],
    };
    let mut printer = ColorPrinter::new(StringSink::new());

    // WHEN
    printer.print_report(&report).unwrap();

    // THEN
    assert_eq!("Running tests for test\n", printer.sink.text());
}

#[test]
fn test_print_report_failure_order_follows_input() {
    // GIVEN
    let mut first = result_from_name("suite1::first");
    first.actual_status = 1;
    let mut second = result_from_name("suite2::second");
    second.actual_status = 2;

    let report = TestReport {
        testsuites: vec![
            TestSuiteResult { name: "suite1".to_string(), results: vec![first] },
            TestSuiteResult { name: "suite2".to_string(), results: vec![second] },
        ],
    };
    let mut printer = ColorPrinter::new(StringSink::new());

    // WHEN
    printer.print_report(&report).unwrap();

    // THEN
    assert_eq!(
        "Running tests for suite1\ntest suite1::first ... FAILED\nRunning tests for suite2\ntest suite2::second ... FAILED\n\nfailures:\n\n---- suite1::first ----\nstatus code differs:\nexpected: 0\nactual: 1\n\n---- suite2::second ----\nstatus code differs:\nexpected: 0\nactual: 2\n\n",
        printer.sink.text()
    );
}
