use pharaoh::gatherer::GatherError;
use pharaoh::gatherer::Parser;
use pharaoh::gatherer::Walker;
use pharaoh::gatherer::YamlGatherer;
use pharaoh::paths::get_stem;
use pharaoh::paths::get_testfile_name;
use pharaoh::testcase::TestSuite;

struct DummyParser {}

impl Parser for DummyParser {
    fn parse_file(&self, _path: &str, name: String) -> Result<TestSuite, GatherError> {
        Ok(TestSuite { name, tests: vec![] })
    }
}

struct DummyWalker {
    dummy_result: Vec<String>,
}

impl Walker for DummyWalker {
    fn walk(&self, _search_dir: &str) -> Result<Vec<String>, GatherError> {
        Ok(self.dummy_result.clone())
    }
}

fn gatherer_for(search_dir: &str) -> YamlGatherer<DummyParser, DummyWalker> {
    YamlGatherer::with_dependencies(
        search_dir.to_string(),
        DummyParser {},
        DummyWalker { dummy_result: vec![] },
    )
}

#[test]
fn test_get_stub_with_leading_dot() {
    let path = "./foo.yaml";
    let search_dir = ".";

    assert_eq!("foo", get_stem(path, search_dir));
}

#[test]
fn test_get_stub_subdir() {
    let path = "foo/bar.yaml";
    let search_dir = "foo";

    assert_eq!("bar", get_stem(path, search_dir));
}

#[test]
fn test_get_stub_subdir_trailing_slash() {
    let path = "foo/bar.yaml";
    let search_dir = "foo/";

    assert_eq!("bar", get_stem(path, search_dir));
}

#[test]
fn test_get_stub_sub_yaml() {
    let path = "./foo/bar.yaml";
    let search_dir = ".";

    assert_eq!("foo/bar", get_stem(path, search_dir));
}

#[test]
fn test_get_stub_sub_yaml_in_subdir() {
    let path = "subdir/foo/bar.yaml";
    let search_dir = "subdir/";

    assert_eq!("foo/bar", get_stem(path, search_dir));
}

#[test]
fn gather_test_get_name_with_leading_dot() {
    let search_dir = ".";
    let path = "./foo.yaml";

    assert_eq!("foo", get_testfile_name(search_dir, path));
}

#[test]
fn gather_test_get_name_subdir() {
    let search_dir = "foo";
    let path = "foo/bar.yaml";

    assert_eq!("bar", get_testfile_name(search_dir, path));
}

#[test]
fn gather_test_get_name_subdir_trailing_slash() {
    let search_dir = "foo/";
    let path = "foo/bar.yaml";

    assert_eq!("bar", get_testfile_name(search_dir, path));
}

#[test]
fn gather_test_get_name_sub_yaml() {
    let search_dir = ".";
    let path = "./foo/bar.yaml";

    assert_eq!("foo/bar", get_testfile_name(search_dir, path));
}

#[test]
fn gather_test_get_name_sub_yaml_in_subdir() {
    let search_dir = "subdir/";
    let path = "subdir/foo/bar.yaml";

    assert_eq!("foo/bar", get_testfile_name(search_dir, path));
}

#[test]
fn yaml_test_get_name_with_leading_dot() {
    let gatherer = gatherer_for(".");
    let path = "./foo.yaml";

    assert_eq!("foo", gatherer.get_testsuite_name(path));
}

#[test]
fn yaml_test_get_name_subdir() {
    let gatherer = gatherer_for("foo");
    let path = "foo/bar.yaml";

    assert_eq!("bar", gatherer.get_testsuite_name(path));
}

#[test]
fn yaml_test_get_name_subdir_trailing_slash() {
    let gatherer = gatherer_for("foo/");
    let path = "foo/bar.yaml";

    assert_eq!("bar", gatherer.get_testsuite_name(path));
}

#[test]
fn yaml_test_get_name_sub_yaml() {
    let gatherer = gatherer_for(".");
    let path = "./foo/bar.yaml";

    assert_eq!("foo/bar", gatherer.get_testsuite_name(path));
}

#[test]
fn yaml_test_get_name_sub_yaml_in_subdir() {
    let gatherer = gatherer_for("subdir/");
    let path = "subdir/foo/bar.yaml";

    assert_eq!("foo/bar", gatherer.get_testsuite_name(path));
}
