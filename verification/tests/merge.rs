use coverage_http::client::CoverageClient;
use coverage_http::error::CoverageError;
use coverage_http::merge::{Merge, MergeStage};
use coverage_http::path::FilePath;
use coverage_http::request::{CommandLine, Output, Reply, Request};

fn path(text: &str) -> FilePath {
    FilePath::from_text(text)
}

fn merge() -> Merge {
    let mut client = CoverageClient::new("ns", path("out"));
    client.set_llvm_profdata_path(path("/opt/llvm-profdata"));
    client.merge_profdata("e2e")
}

fn listed(names: &[&str]) -> Reply {
    Reply::Entries(names.iter().map(|name| Some(path(name))).collect())
}

fn failure(error: CoverageError) -> MergeStage {
    MergeStage::Done(Err(error))
}

#[test]
fn raw_profiles_are_merged_in_the_order_of_their_listing() {
    let task = merge();
    assert_eq!(task.request(), Some(Request::ListDir(path("out/e2e"))));
    let task = task.resume(Reply::Entries(vec![
        Some(path("b.profraw")),
        Some(path("metadata.json")),
        None,
        Some(path("a.profraw")),
        Some(path(".profraw")),
    ]));
    let args = [
        "merge",
        "--sparse",
        "out/e2e/b.profraw",
        "out/e2e/a.profraw",
        "-o",
        "out/e2e/coverage.profdata",
    ];
    assert_eq!(
        task.request(),
        Some(Request::Run(CommandLine {
            program: path("/opt/llvm-profdata"),
            args: args.iter().map(|arg| arg.as_bytes().to_vec()).collect(),
        }))
    );
    let task = task.resume(Reply::Ran(Output {
        success: true,
        stdout: Vec::new(),
        stderr: Vec::new(),
    }));
    assert_eq!(task.stage, MergeStage::Done(Ok(path("out/e2e/coverage.profdata"))));
}

#[test]
fn a_directory_that_cannot_be_listed_is_an_error() {
    assert_eq!(
        merge().resume(Reply::Failed("gone".to_string())).stage,
        failure(CoverageError::Io("gone".to_string()))
    );
}

#[test]
fn no_raw_profile_is_an_error() {
    assert_eq!(
        merge().resume(listed(&["coverage.profdata", ".profraw"])).stage,
        failure(CoverageError::Other("No profraw files found in test directory".to_string()))
    );
}

#[test]
fn a_merge_that_fails_is_quoted() {
    let output = Output { success: false, stdout: Vec::new(), stderr: b"malformed".to_vec() };
    assert_eq!(
        merge().resume(listed(&["a.profraw"])).resume(Reply::Ran(output)).stage,
        failure(CoverageError::LlvmProfdata("llvm-profdata merge failed: malformed".to_string()))
    );
    assert_eq!(
        merge().resume(listed(&["a.profraw"])).resume(Reply::Failed("no exec".to_string())).stage,
        failure(CoverageError::Io("no exec".to_string()))
    );
}

#[test]
fn the_tool_is_searched_for_only_where_there_is_something_to_merge() {
    let client = CoverageClient::new("ns", path("out"));
    let task = client.merge_profdata("e2e").resume(listed(&["a.profraw"]));
    assert_eq!(task.request(), Some(Request::Locate("llvm-profdata".to_string())));
    let found = task.resume(Reply::Located(Some(path("/bin/p"))));
    assert_eq!(
        found.stage,
        MergeStage::Running { inputs: vec![path("out/e2e/a.profraw")], tool: path("/bin/p") }
    );
}
