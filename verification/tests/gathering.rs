use pharaoh::RunFailure;
use pharaoh::formatter::DefaultFormatter;
use pharaoh::gatherer::GatherError;
use pharaoh::gatherer::Gatherer;
use pharaoh::gatherer::Parser;
use pharaoh::gatherer::Walker;
use pharaoh::gatherer::YamlGatherer;
use pharaoh::printer::ColorPrinter;
use pharaoh::printer::StringSink;
use pharaoh::result::ProcessOutput;
use pharaoh::run;
use pharaoh::runner::ExecError;
use pharaoh::runner::ExecErrorKind;
use pharaoh::runner::Executor;
use pharaoh::runner::Runner;
use pharaoh::testcase::TestCase;
use pharaoh::testcase::TestSuite;
use pharaoh::testcase::TestSuiteCollection;

#[derive(Debug, PartialEq)]
struct DummyParser {}

impl Parser for DummyParser {
    fn parse_file(&self, _path: &str, name: String) -> Result<TestSuite, GatherError> {
        Ok(TestSuite { name, tests: vec![] })
    }
}

#[derive(Debug, PartialEq)]
struct DummyWalker {
    dummy_result: Vec<String>,
}

impl DummyWalker {
    fn new(dummy_result: Vec<String>) -> Self {
        DummyWalker { dummy_result }
    }
}

impl Walker for DummyWalker {
    fn walk(&self, _search_dir: &str) -> Result<Vec<String>, GatherError> {
        Ok(self.dummy_result.clone())
    }
}

struct FailingWalker {}

impl Walker for FailingWalker {
    fn walk(&self, _search_dir: &str) -> Result<Vec<String>, GatherError> {
        Err(GatherError { detail: "directory vanished".to_string() })
    }
}

struct EmptyGatherer {}

impl Gatherer for EmptyGatherer {
    fn gather(&self) -> Result<TestSuiteCollection, GatherError> {
        Ok(TestSuiteCollection { testsuites: vec![] })
    }
}

struct OkExecutor {}

impl Executor for OkExecutor {
    fn execute(&mut self, _testcase: &TestCase) -> Result<ProcessOutput, ExecError> {
        Ok(ProcessOutput { stdout: "".to_string(), stderr: "".to_string(), code: Some(0) })
    }
}

struct FailingExecutor {}

impl Executor for FailingExecutor {
    fn execute(&mut self, _testcase: &TestCase) -> Result<ProcessOutput, ExecError> {
        Err(ExecError { kind: ExecErrorKind::StdinWrite, detail: "pipe closed".to_string() })
    }
}

struct OneCaseGatherer {}

impl Gatherer for OneCaseGatherer {
    fn gather(&self) -> Result<TestSuiteCollection, GatherError> {
        Ok(TestSuiteCollection {
            testsuites: vec![TestSuite {
                name: "foo".to_string(),
                tests: vec![TestCase {
                    name: "foo::trivial".to_string(),
                    cmd: "true".to_string(),
                    stdin: "".to_string(),
                    stdout: "".to_string(),
                    stderr: "".to_string(),
                    status: 0,
                }],
            }],
        })
    }
}

#[test]
fn test_gather() {
    // GIVEN
    let parser = DummyParser {};
    let walker = DummyWalker::new(vec!["./foo.yaml".to_string()]);
    let gatherer = YamlGatherer::with_dependencies(".".to_string(), parser, walker);

    // WHEN
    let collection = gatherer.gather();

    // THEN
    assert_eq!(
        TestSuiteCollection {
            testsuites: vec![TestSuite { name: "foo".to_string(), tests: vec![] }]
        },
        collection.unwrap()
    );
}

#[test]
fn test_new_calls_with_dependencies() {
    // GIVEN
    let parser = DummyParser {};
    let walker = DummyWalker::new(vec![]);

    // WHEN
    let gatherer =
        YamlGatherer::with_dependencies(".".to_string(), DummyParser {}, DummyWalker::new(vec![]));

    // THEN
    assert_eq!(parser, gatherer.parser);
    assert_eq!(walker, gatherer.walker);
    assert_eq!(".", gatherer.search_dir);
}

#[test]
fn test_gather_propagates_walker_error() {
    // GIVEN
    let gatherer =
        YamlGatherer::with_dependencies(".".to_string(), DummyParser {}, FailingWalker {});

    // WHEN
    let collection = gatherer.gather();

    // THEN
    assert!(collection.is_err());
}

#[test]
fn test_collection_from_testsuites() {
    // GIVEN
    let testsuites = vec![
        TestSuite { name: "suite1".to_string(), tests: vec![] },
        TestSuite { name: "suite2".to_string(), tests: vec![] },
    ];

    // WHEN
    let result = TestSuiteCollection::new(testsuites);

    // THEN
    assert_eq!(
        TestSuiteCollection {
            testsuites: vec![
                TestSuite { name: "suite1".to_string(), tests: vec![] },
                TestSuite { name: "suite2".to_string(), tests: vec![] },
            ]
        },
        result
    );
}

#[test]
fn test_run() {
    // GIVEN
    let gatherer = EmptyGatherer {};
    let mut runner = Runner::with_executor(OkExecutor {});
    let mut printer = ColorPrinter::with_formatter(StringSink::new(), DefaultFormatter::new());

    // WHEN
    let run_result = run(&gatherer, &mut runner, &mut printer);

    // THEN
    assert!(run_result.is_ok());
    assert_eq!("No test case found. Exiting.\n", printer.sink.text());
}

#[test]
fn test_run_reports_gather_failure() {
    // GIVEN
    let gatherer =
        YamlGatherer::with_dependencies(".".to_string(), DummyParser {}, FailingWalker {});
    let mut runner = Runner::with_executor(OkExecutor {});
    let mut printer = ColorPrinter::new(StringSink::new());

    // WHEN
    let run_result = run(&gatherer, &mut runner, &mut printer);

    // THEN
    assert!(matches!(run_result, Err(RunFailure::Gather(_))));
    assert_eq!("", printer.sink.text());
}

#[test]
fn test_run_reports_execution_failure() {
    // GIVEN
    let gatherer = OneCaseGatherer {};
    let mut runner = Runner::with_executor(FailingExecutor {});
    let mut printer = ColorPrinter::new(StringSink::new());

    // WHEN
    let run_result = run(&gatherer, &mut runner, &mut printer);

    // THEN
    match run_result {
        Err(RunFailure::Run(error)) => {
            assert_eq!("foo::trivial", error.test_name);
            assert_eq!(ExecErrorKind::StdinWrite, error.cause.kind);
        },
        other => panic!("expected an execution failure, got {:?}", other),
    }
    assert_eq!("", printer.sink.text());
}
