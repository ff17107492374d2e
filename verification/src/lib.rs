//! A declarative runner for command-line test cases.
//!
//! Test cases pair a shell command and its stdin with the stdout, stderr and
//! exit status the author expects. The library models those cases, runs
//! each one through an injected executor, assembles the results into a
//! report that mirrors the input order, and renders the report, including a
//! line diff of every mismatch, as literal text.

use vstd::prelude::*;

pub mod diff;
pub mod formatter;
pub mod gatherer;
pub mod paths;
pub mod printer;
pub mod result;
pub mod runner;
pub mod strutil;
pub mod testcase;

use crate::gatherer::GatherError;
use crate::gatherer::Gatherer;
use crate::printer::Printer;
use crate::printer::SinkError;
use crate::result::TestReportView;
use crate::runner::Executor;
use crate::runner::RunError;
use crate::runner::Runner;
use crate::runner::report_mirrors;
use crate::testcase::TestSuiteCollectionView;

verus! {

/// A fatal failure of a whole run, by the component it arose in.
#[derive(PartialEq, Eq, Debug)]
pub enum RunFailure {
    /// The test specifications could not be gathered or parsed.
    Gather(GatherError),
    /// A test case's process could not be executed.
    Run(RunError),
    /// The report could not be written to its sink.
    Print(SinkError),
}

/// Gathers a collection of suites, runs every case, and prints the report.
///
/// A test case whose output differs from its expectation is ordinary data
/// in the report; only infrastructure failures surface as errors. On
/// success the sink received the printer's rendering of a report that
/// mirrors the gathered collection suite by suite and case by case.
pub fn run<G: Gatherer, E: Executor, P: Printer>(
    gatherer: &G,
    runner: &mut Runner<E>,
    printer: &mut P,
) -> (r: Result<(), RunFailure>)
    ensures
        r matches Ok(_) ==> exists|c: TestSuiteCollectionView, rep: TestReportView|
            #[trigger] report_mirrors(rep, c) && final(printer).sink_contents() == old(
                printer,
            ).sink_contents() + old(printer).output_spec(rep),
{
    let collection = match gatherer.gather() {
        Ok(collection) => collection,
        Err(e) => {
            return Err(RunFailure::Gather(e));
        },
    };
    let report = match runner.run_all_tests(collection) {
        Ok(report) => report,
        Err(e) => {
            return Err(RunFailure::Run(e));
        },
    };
    match printer.print_report(&report) {
        Ok(_) => {
            proof {
                assert(report_mirrors(report@, collection@));
                assert(final(printer).sink_contents() == old(printer).sink_contents() + old(
                    printer,
                ).output_spec(report@));
            }
            Ok(())
        },
        Err(e) => Err(RunFailure::Print(e)),
    }
}

} // verus!
