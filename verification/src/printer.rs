//! Rendering a report as literal text: one status line per result, then one
//! summary block per failure, written line by line to a caller-supplied
//! sink.

use vstd::prelude::*;

use crate::formatter::DefaultFormatter;
use crate::formatter::Formatter;
use crate::result::TestReport;
use crate::result::TestReportView;
use crate::result::TestResult;
use crate::result::TestResultView;
use crate::result::TestSuiteResult;
use crate::result::TestSuiteResultView;
use crate::result::spec_is_successful;

verus! {

/// A failure to write report text to the output sink.
#[derive(PartialEq, Eq, Debug)]
pub struct SinkError {
    /// A human-readable description of the failure.
    pub detail: String,
}

/// An output sink for report text.
///
/// A write either appends the whole text to the sink's contents or fails;
/// what makes a write fail is the implementation's affair. A sink that
/// cannot fail, such as one writing to memory, says so through
/// [`Sink::never_fails`], and its writes then always succeed.
pub trait Sink {
    /// The text the sink has accepted so far.
    spec fn contents(&self) -> Seq<char>;

    /// Whether writes to this sink always succeed.
    spec fn never_fails(&self) -> bool;

    /// Appends text to the sink.
    fn write_str(&mut self, text: &str) -> (r: Result<(), SinkError>)
        ensures
            r matches Ok(_) ==> final(self).contents() == old(self).contents() + text@,
            final(self).never_fails() == old(self).never_fails(),
            old(self).never_fails() ==> r matches Ok(_),
    ;
}

/// A [`Sink`] that collects everything written to it in a string.
pub struct StringSink {
    data: String,
}

impl StringSink {
    /// Constructs an empty sink.
    pub fn new() -> (r: Self)
        ensures
            r.contents() == Seq::<char>::empty(),
    {
        StringSink { data: String::new() }
    }

    /// The text written to the sink so far.
    pub fn text(&self) -> (r: &str)
        ensures
            r@ == self.contents(),
    {
        self.data.as_str()
    }
}

impl Sink for StringSink {
    closed spec fn contents(&self) -> Seq<char> {
        self.data@
    }

    open spec fn never_fails(&self) -> bool {
        true
    }

    fn write_str(&mut self, text: &str) -> (r: Result<(), SinkError>)
        ensures
            r matches Ok(_),
    {
        self.data.append(text);
        Ok(())
    }
}

/// The status line of one result: `test <name> ... OK` or
/// `test <name> ... FAILED`, without a terminator.
pub open spec fn spec_oneliner(name: Seq<char>, success: bool) -> Seq<char> {
    "test "@ + name + " ... "@ + if success {
        "OK"@
    } else {
        "FAILED"@
    }
}

/// Builds the status line of one result.
pub fn format_oneliner(result: &TestResult, success: bool) -> (r: String)
    ensures
        r@ == spec_oneliner(result@.name, success),
{
    let mut s = String::from_str("test ");
    s.append(result.name.as_str());
    s.append(" ... ");
    if success {
        s.append("OK");
    } else {
        s.append("FAILED");
    }
    assert(s@ =~= spec_oneliner(result@.name, success));
    s
}

/// The header line announcing one suite.
pub open spec fn spec_suite_header(name: Seq<char>) -> Seq<char> {
    "Running tests for "@ + name + "\n"@
}

/// The status lines of a suite's results, in order.
pub open spec fn spec_oneliner_lines(results: Seq<TestResultView>) -> Seq<char>
    decreases results.len(),
{
    if results.len() == 0 {
        Seq::empty()
    } else {
        spec_oneliner_lines(results.drop_last()) + spec_oneliner(
            results.last().name,
            spec_is_successful(results.last()),
        ) + "\n"@
    }
}

/// The text block of one suite: its header, then its status lines.
pub open spec fn spec_suite_block(s: TestSuiteResultView) -> Seq<char> {
    spec_suite_header(s.name) + spec_oneliner_lines(s.results)
}

/// The text blocks of a report's suites, in order.
pub open spec fn spec_suite_blocks(suites: Seq<TestSuiteResultView>) -> Seq<char>
    decreases suites.len(),
{
    if suites.len() == 0 {
        Seq::empty()
    } else {
        spec_suite_blocks(suites.drop_last()) + spec_suite_block(suites.last())
    }
}

/// The unsuccessful results of a suite, in order.
pub open spec fn spec_failing_results(results: Seq<TestResultView>) -> Seq<TestResultView>
    decreases results.len(),
{
    if results.len() == 0 {
        Seq::empty()
    } else {
        spec_failing_results(results.drop_last()) + if spec_is_successful(results.last()) {
            Seq::empty()
        } else {
            seq![results.last()]
        }
    }
}

/// The unsuccessful results of a whole report, in the order encountered.
pub open spec fn spec_failing_in_suites(suites: Seq<TestSuiteResultView>) -> Seq<TestResultView>
    decreases suites.len(),
{
    if suites.len() == 0 {
        Seq::empty()
    } else {
        spec_failing_in_suites(suites.drop_last()) + spec_failing_results(suites.last().results)
    }
}

/// The text block of one failure: its banner, its summary, a blank line.
pub open spec fn spec_failure_block<F: Formatter>(fmt: F, r: TestResultView) -> Seq<char> {
    "---- "@ + r.name + " ----\n"@ + fmt.summary_spec(r) + "\n"@
}

/// The text blocks of a list of failures, in order.
pub open spec fn spec_failure_blocks<F: Formatter>(fmt: F, rs: Seq<TestResultView>) -> Seq<char>
    decreases rs.len(),
{
    if rs.len() == 0 {
        Seq::empty()
    } else {
        spec_failure_blocks(fmt, rs.drop_last()) + spec_failure_block(fmt, rs.last())
    }
}

/// The failures section of a report, empty when every result succeeded.
pub open spec fn spec_failures_section<F: Formatter>(fmt: F, rs: Seq<TestResultView>) -> Seq<
    char,
> {
    if rs.len() == 0 {
        Seq::empty()
    } else {
        "\nfailures:\n\n"@ + spec_failure_blocks(fmt, rs)
    }
}

/// The full text of a report: the empty-input line when there is no suite,
/// otherwise every suite's block followed by the failures section.
pub open spec fn spec_report_text<F: Formatter>(fmt: F, report: TestReportView) -> Seq<char> {
    if report.testsuites.len() == 0 {
        "No test case found. Exiting.\n"@
    } else {
        spec_suite_blocks(report.testsuites) + spec_failures_section(
            fmt,
            spec_failing_in_suites(report.testsuites),
        )
    }
}

proof fn lemma_failing_results_empty_iff(results: Seq<TestResultView>)
    ensures
        spec_failing_results(results).len() == 0 <==> forall|j: int|
            0 <= j < results.len() ==> spec_is_successful(#[trigger] results[j]),
    decreases results.len(),
{
    if results.len() > 0 {
        lemma_failing_results_empty_iff(results.drop_last());
        assert(forall|j: int|
            0 <= j < results.len() - 1 ==> results.drop_last()[j] == #[trigger] results[j]);
    }
}

/// The list of failures rendered for a report is empty exactly when every
/// result of every suite is successful, so the failures section appears
/// exactly when some result is unsuccessful.
pub proof fn lemma_failures_iff_some_unsuccessful(suites: Seq<TestSuiteResultView>)
    ensures
        spec_failing_in_suites(suites).len() == 0 <==> forall|i: int, j: int|
            0 <= i < suites.len() && 0 <= j < suites[i].results.len() ==> spec_is_successful(
                #[trigger] suites[i].results[j],
            ),
    decreases suites.len(),
{
    if suites.len() > 0 {
        lemma_failures_iff_some_unsuccessful(suites.drop_last());
        lemma_failing_results_empty_iff(suites.last().results);
        assert(forall|i: int|
            0 <= i < suites.len() - 1 ==> suites.drop_last()[i] == #[trigger] suites[i]);
        assert(suites.last() == suites[suites.len() - 1]);
    }
}

proof fn lemma_suite_blocks_take_step(suites: Seq<TestSuiteResultView>, i: int)
    requires
        0 <= i < suites.len(),
    ensures
        spec_suite_blocks(suites.take(i + 1)) == spec_suite_blocks(suites.take(i))
            + spec_suite_block(suites[i]),
{
    assert(suites.take(i + 1).drop_last() =~= suites.take(i));
}

proof fn lemma_oneliner_lines_take_step(results: Seq<TestResultView>, j: int)
    requires
        0 <= j < results.len(),
    ensures
        spec_oneliner_lines(results.take(j + 1)) == spec_oneliner_lines(results.take(j))
            + spec_oneliner(results[j].name, spec_is_successful(results[j])) + "\n"@,
{
    assert(results.take(j + 1).drop_last() =~= results.take(j));
}

proof fn lemma_failing_results_take_step(results: Seq<TestResultView>, j: int)
    requires
        0 <= j < results.len(),
    ensures
        spec_failing_results(results.take(j + 1)) == spec_failing_results(results.take(j)) + (
        if spec_is_successful(results[j]) {
            Seq::<TestResultView>::empty()
        } else {
            seq![results[j]]
        }),
{
    assert(results.take(j + 1).drop_last() =~= results.take(j));
}

proof fn lemma_failing_in_suites_take_step(suites: Seq<TestSuiteResultView>, i: int)
    requires
        0 <= i < suites.len(),
    ensures
        spec_failing_in_suites(suites.take(i + 1)) == spec_failing_in_suites(suites.take(i))
            + spec_failing_results(suites[i].results),
{
    assert(suites.take(i + 1).drop_last() =~= suites.take(i));
}

proof fn lemma_failure_blocks_take_step<F: Formatter>(fmt: F, rs: Seq<TestResultView>, k: int)
    requires
        0 <= k < rs.len(),
    ensures
        spec_failure_blocks(fmt, rs.take(k + 1)) == spec_failure_blocks(fmt, rs.take(k))
            + spec_failure_block(fmt, rs[k]),
{
    assert(rs.take(k + 1).drop_last() =~= rs.take(k));
}

/// Renders a report to a sink.
pub trait Printer {
    /// The text the printer's sink has accepted so far.
    spec fn sink_contents(&self) -> Seq<char>;

    /// Whether writes to the printer's sink always succeed.
    spec fn sink_never_fails(&self) -> bool;

    /// The text a successful print of a report appends to the sink.
    spec fn output_spec(&self, report: TestReportView) -> Seq<char>;

    /// Renders the report and writes it to the sink. Printing can only fail
    /// when the sink fails, so over an infallible sink it succeeds.
    fn print_report(&mut self, report: &TestReport) -> (r: Result<(), SinkError>)
        ensures
            r matches Ok(_) ==> final(self).sink_contents() == old(self).sink_contents() + old(
                self,
            ).output_spec(report@),
            old(self).sink_never_fails() ==> r matches Ok(_),
    ;
}

/// The production [`Printer`]: writes the report's literal text to its sink,
/// using a [`Formatter`] for the failure summaries.
pub struct ColorPrinter<F: Formatter, S: Sink> {
    /// The sink the report text is written to.
    pub sink: S,
    /// The formatter that renders each failure's summary.
    pub formatter: F,
}

impl<S: Sink> ColorPrinter<DefaultFormatter, S> {
    /// Constructs a printer over a sink, with the production formatter.
    pub fn new(sink: S) -> (r: Self)
        ensures
            r.sink == sink,
            r.formatter == (DefaultFormatter {  }),
    {
        Self::with_formatter(sink, DefaultFormatter::new())
    }
}

impl<F: Formatter, S: Sink> ColorPrinter<F, S> {
    /// Constructs a printer over a sink with the given formatter.
    pub fn with_formatter(sink: S, formatter: F) -> (r: Self)
        ensures
            r.sink == sink,
            r.formatter == formatter,
    {
        ColorPrinter { sink, formatter }
    }

    /// Writes the header line announcing one suite.
    pub fn print_testsuite_header(&mut self, testsuite: &TestSuiteResult) -> (r: Result<
        (),
        SinkError,
    >)
        ensures
            final(self).formatter == old(self).formatter,
            final(self).sink.never_fails() == old(self).sink.never_fails(),
            old(self).sink.never_fails() ==> r matches Ok(_),
            r matches Ok(_) ==> final(self).sink.contents() == old(self).sink.contents()
                + spec_suite_header(testsuite@.name),
    {
        let mut line = String::from_str("Running tests for ");
        line.append(testsuite.name.as_str());
        line.append("\n");
        let r = self.sink.write_str(line.as_str());
        proof {
            if r is Ok {
                assert(final(self).sink.contents() =~= old(self).sink.contents()
                    + spec_suite_header(testsuite@.name));
            }
        }
        r
    }

    /// Writes the status line of one result.
    pub fn print_oneliner(&mut self, result: &TestResult) -> (r: Result<(), SinkError>)
        ensures
            final(self).formatter == old(self).formatter,
            final(self).sink.never_fails() == old(self).sink.never_fails(),
            old(self).sink.never_fails() ==> r matches Ok(_),
            r matches Ok(_) ==> final(self).sink.contents() == old(self).sink.contents()
                + spec_oneliner(result@.name, spec_is_successful(result@)) + "\n"@,
    {
        let success = result.is_successful();
        let mut line = format_oneliner(result, success);
        line.append("\n");
        self.sink.write_str(line.as_str())
    }

    /// Writes the failures section: nothing when every result succeeded,
    /// otherwise a banner and a summary block per failure, in order.
    pub fn print_failures(&mut self, failures: Vec<&TestResult>) -> (r: Result<(), SinkError>)
        ensures
            final(self).formatter == old(self).formatter,
            final(self).sink.never_fails() == old(self).sink.never_fails(),
            old(self).sink.never_fails() ==> r matches Ok(_),
            r matches Ok(_) ==> final(self).sink.contents() == old(self).sink.contents()
                + spec_failures_section(
                old(self).formatter,
                failures@.map_values(|t: &TestResult| t@),
            ),
    {
        let ghost fmt = self.formatter;
        let ghost views = failures@.map_values(|t: &TestResult| t@);
        let ghost start = self.sink.contents();
        if failures.len() == 0 {
            return Ok(());
        }
        self.sink.write_str("\nfailures:\n\n")?;
        let mut k: usize = 0;
        while k < failures.len()
            invariant
                k <= failures.len(),
                fmt == old(self).formatter,
                start == old(self).sink.contents(),
                self.sink.never_fails() == old(self).sink.never_fails(),
                self.formatter == fmt,
                views == failures@.map_values(|t: &TestResult| t@),
                self.sink.contents() == start + "\nfailures:\n\n"@ + spec_failure_blocks(
                    fmt,
                    views.take(k as int),
                ),
            decreases failures.len() - k,
        {
            let failure = failures[k];
            let mut banner = String::from_str("---- ");
            banner.append(failure.name.as_str());
            banner.append(" ----\n");
            self.sink.write_str(banner.as_str())?;
            let mut summary = self.formatter.compute_summary(failure);
            summary.append("\n");
            self.sink.write_str(summary.as_str())?;
            proof {
                lemma_failure_blocks_take_step(fmt, views, k as int);
                assert(views[k as int] == failure@);
                assert(self.sink.contents() =~= start + "\nfailures:\n\n"@ + spec_failure_blocks(
                    fmt,
                    views.take(k as int + 1),
                ));
            }
            k = k + 1;
        }
        proof {
            assert(views.take(failures@.len() as int) =~= views);
        }
        Ok(())
    }
}

impl<F: Formatter, S: Sink> Printer for ColorPrinter<F, S> {
    open spec fn sink_contents(&self) -> Seq<char> {
        self.sink.contents()
    }

    open spec fn sink_never_fails(&self) -> bool {
        self.sink.never_fails()
    }

    open spec fn output_spec(&self, report: TestReportView) -> Seq<char> {
        spec_report_text(self.formatter, report)
    }

    fn print_report(&mut self, report: &TestReport) -> (r: Result<(), SinkError>)
        ensures
            final(self).formatter == old(self).formatter,
    {
        let ghost fmt = self.formatter;
        let ghost start = self.sink.contents();
        let ghost suites = report@.testsuites;
        if report.testsuites.len() == 0 {
            return self.sink.write_str("No test case found. Exiting.\n");
        }
        let mut failures: Vec<&TestResult> = Vec::new();
        let mut i: usize = 0;
        while i < report.testsuites.len()
            invariant
                i <= report.testsuites.len(),
                suites == report@.testsuites,
                fmt == old(self).formatter,
                start == old(self).sink.contents(),
                self.sink.never_fails() == old(self).sink.never_fails(),
                self.formatter == fmt,
                self.sink.contents() == start + spec_suite_blocks(suites.take(i as int)),
                failures@.map_values(|t: &TestResult| t@) == spec_failing_in_suites(
                    suites.take(i as int),
                ),
            decreases report.testsuites.len() - i,
        {
            let suite_result = &report.testsuites[i];
            self.print_testsuite_header(suite_result)?;
            let mut j: usize = 0;
            while j < suite_result.results.len()
                invariant
                    i < report.testsuites.len(),
                    j <= suite_result.results.len(),
                    suites == report@.testsuites,
                    suite_result == &report.testsuites@[i as int],
                    fmt == old(self).formatter,
                    start == old(self).sink.contents(),
                    self.sink.never_fails() == old(self).sink.never_fails(),
                    self.formatter == fmt,
                    self.sink.contents() == start + spec_suite_blocks(suites.take(i as int))
                        + spec_suite_header(suites[i as int].name) + spec_oneliner_lines(
                        suites[i as int].results.take(j as int),
                    ),
                    failures@.map_values(|t: &TestResult| t@) == spec_failing_in_suites(
                        suites.take(i as int),
                    ) + spec_failing_results(suites[i as int].results.take(j as int)),
                decreases suite_result.results.len() - j,
            {
                let test_result = &suite_result.results[j];
                self.print_oneliner(test_result)?;
                let ghost pre_failures = failures@;
                if !test_result.is_successful() {
                    failures.push(test_result);
                }
                proof {
                    lemma_oneliner_lines_take_step(suites[i as int].results, j as int);
                    lemma_failing_results_take_step(suites[i as int].results, j as int);
                    assert(suites[i as int].results[j as int] == test_result@);
                    assert(self.sink.contents() =~= start + spec_suite_blocks(
                        suites.take(i as int),
                    ) + spec_suite_header(suites[i as int].name) + spec_oneliner_lines(
                        suites[i as int].results.take(j as int + 1),
                    ));
                    if spec_is_successful(test_result@) {
                        assert(failures@ == pre_failures);
                    } else {
                        assert(failures@ == pre_failures.push(test_result));
                        assert(failures@.map_values(|t: &TestResult| t@) =~= pre_failures
                            .map_values(|t: &TestResult| t@).push(test_result@));
                    }
                    assert(failures@.map_values(|t: &TestResult| t@) =~= spec_failing_in_suites(
                        suites.take(i as int),
                    ) + spec_failing_results(suites[i as int].results.take(j as int + 1)));
                }
                j = j + 1;
            }
            proof {
                let results = suites[i as int].results;
                assert(results.take(results.len() as int) =~= results);
                lemma_suite_blocks_take_step(suites, i as int);
                lemma_failing_in_suites_take_step(suites, i as int);
                assert(self.sink.contents() =~= start + spec_suite_blocks(
                    suites.take(i as int + 1),
                ));
                assert(failures@.map_values(|t: &TestResult| t@) =~= spec_failing_in_suites(
                    suites.take(i as int + 1),
                ));
            }
            i = i + 1;
        }
        proof {
            assert(suites.take(suites.len() as int) =~= suites);
        }
        self.print_failures(failures)?;
        Ok(())
    }
}

} // verus!
