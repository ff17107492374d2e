//! Gathering a collection of test suites from specification files found
//! under a directory.
//!
//! Walking the file system and parsing a file's text are the affair of the
//! injected collaborators; this module owns the orchestration and the
//! naming of each suite after its file's path.

use vstd::prelude::*;

use crate::paths::get_stem;
use crate::paths::spec_is_under;
use crate::paths::spec_stem;
use crate::testcase::TestSuite;
use crate::testcase::TestSuiteCollection;
use crate::testcase::TestSuiteCollectionView;

verus! {

/// A failure to find or read the test specifications.
#[derive(PartialEq, Eq, Debug)]
pub struct GatherError {
    /// A human-readable description of the failure.
    pub detail: String,
}

/// Lists the specification files under a directory.
///
/// Implementations return the matching paths in sorted order; every path
/// they return lies under the searched directory.
pub trait Walker {
    /// Lists the specification files under the directory.
    fn walk(&self, search_dir: &str) -> (r: Result<Vec<String>, GatherError>)
        ensures
            r matches Ok(paths) ==> forall|i: int|
                0 <= i < paths@.len() ==> spec_is_under(#[trigger] paths@[i]@, search_dir@),
    ;
}

/// Reads one specification file into a suite.
///
/// Implementations give the suite the name they are handed and qualify each
/// case's name with it.
pub trait Parser {
    /// Reads the file at the path into a suite carrying the given name.
    fn parse_file(&self, path: &str, name: String) -> (r: Result<TestSuite, GatherError>)
        ensures
            r matches Ok(suite) ==> suite.name@ == name@,
    ;
}

/// Produces the collection of suites a run works through.
pub trait Gatherer {
    /// Gathers every suite, in the implementation's order.
    fn gather(&self) -> Result<TestSuiteCollection, GatherError>;
}

/// Whether a collection is the parse of a walked path list: one suite per
/// path, in order, each path under the searched directory and each suite
/// named after its path's stem.
pub open spec fn suites_named_after(
    collection: TestSuiteCollectionView,
    paths: Seq<Seq<char>>,
    dir: Seq<char>,
) -> bool {
    &&& collection.testsuites.len() == paths.len()
    &&& forall|i: int| 0 <= i < paths.len() ==> spec_is_under(#[trigger] paths[i], dir)
    &&& forall|i: int|
        0 <= i < paths.len() ==> #[trigger] collection.testsuites[i].name == spec_stem(
            paths[i],
            dir,
        )
}

/// Whether a collection could be the parse of some walked path list under
/// the searched directory, suite names following the paths' stems in order.
pub open spec fn gathered_from(collection: TestSuiteCollectionView, dir: Seq<char>) -> bool {
    exists|paths: Seq<Seq<char>>| #[trigger] suites_named_after(collection, paths, dir)
}

/// The production [`Gatherer`]: walks a directory for specification files
/// and parses each one into a suite named after its path's stem.
pub struct YamlGatherer<P: Parser, W: Walker> {
    /// The directory searched for specification files.
    pub search_dir: String,
    /// The parser that reads one file into a suite.
    pub parser: P,
    /// The walker that lists the specification files.
    pub walker: W,
}

impl<P: Parser, W: Walker> YamlGatherer<P, W> {
    /// Constructs a gatherer over the given collaborators.
    pub fn with_dependencies(search_dir: String, parser: P, walker: W) -> (r: Self)
        ensures
            r.search_dir == search_dir,
            r.parser == parser,
            r.walker == walker,
    {
        YamlGatherer { search_dir, parser, walker }
    }

    /// The name a specification file contributes: the stem of its path
    /// relative to the searched directory.
    pub fn get_testsuite_name(&self, path: &str) -> (r: String)
        requires
            spec_is_under(path@, self.search_dir@),
        ensures
            r@ == spec_stem(path@, self.search_dir@),
    {
        get_stem(path, self.search_dir.as_str())
    }

    /// Reads the file at the path into a suite named after the path's stem.
    pub fn get_testsuite_from_path(&self, path: &str) -> (r: Result<TestSuite, GatherError>)
        requires
            spec_is_under(path@, self.search_dir@),
        ensures
            r matches Ok(suite) ==> suite.name@ == spec_stem(path@, self.search_dir@),
    {
        let testsuite_name = self.get_testsuite_name(path);
        self.parser.parse_file(path, testsuite_name)
    }
}

impl<P: Parser, W: Walker> Gatherer for YamlGatherer<P, W> {
    fn gather(&self) -> (r: Result<TestSuiteCollection, GatherError>)
        ensures
            r matches Ok(collection) ==> gathered_from(collection@, self.search_dir@),
    {
        let paths = match self.walker.walk(self.search_dir.as_str()) {
            Ok(paths) => paths,
            Err(e) => {
                return Err(e);
            },
        };
        let ghost path_views = paths@.map_values(|p: String| p@);
        let mut testsuites: Vec<TestSuite> = Vec::new();
        let mut i: usize = 0;
        while i < paths.len()
            invariant
                i <= paths.len(),
                path_views == paths@.map_values(|p: String| p@),
                testsuites@.len() == i,
                forall|k: int|
                    0 <= k < paths@.len() ==> spec_is_under(
                        #[trigger] paths@[k]@,
                        self.search_dir@,
                    ),
                forall|k: int|
                    0 <= k < i ==> #[trigger] testsuites@[k]@.name == spec_stem(
                        path_views[k],
                        self.search_dir@,
                    ),
            decreases paths.len() - i,
        {
            let testsuite = match self.get_testsuite_from_path(paths[i].as_str()) {
                Ok(suite) => suite,
                Err(e) => {
                    return Err(e);
                },
            };
            testsuites.push(testsuite);
            i = i + 1;
        }
        let collection = TestSuiteCollection::new(testsuites);
        proof {
            assert(suites_named_after(collection@, path_views, self.search_dir@));
            assert(gathered_from(collection@, self.search_dir@));
        }
        Ok(collection)
    }
}

} // verus!
