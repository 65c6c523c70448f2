use coverage_http::client::CoverageClient;
use coverage_http::error::CoverageError;
use coverage_http::path::FilePath;
use coverage_http::pipeline::Processing;
use coverage_http::request::{Output, Reply, Request};

fn path(text: &str) -> FilePath {
    FilePath::from_text(text)
}

fn client() -> CoverageClient {
    let mut client = CoverageClient::new("ns", path("out"));
    client
        .set_llvm_profdata_path(path("/opt/llvm-profdata"))
        .set_llvm_cov_path(path("/opt/llvm-cov"));
    client
}

fn subcommand(request: &Request) -> String {
    match request {
        Request::Run(command) => String::from_utf8(command.args[0].clone()).unwrap(),
        Request::ListDir(dir) => format!("list {}", dir.display()),
        Request::WriteFile { path, .. } => format!("write {}", path.display()),
        other => panic!("{:?}", other),
    }
}

fn process(client: &CoverageClient, failing: &str) -> (Vec<String>, Result<(), CoverageError>) {
    let mut task = client.process_reports("e2e");
    let mut asked = Vec::new();
    while let Some(request) = task.request() {
        let what = subcommand(&request);
        let reply = match request {
            Request::ListDir(_) => Reply::Entries(vec![Some(path("a.profraw"))]),
            Request::Run(_) => Reply::Ran(Output {
                success: what != failing,
                stdout: Vec::new(),
                stderr: b"bad".to_vec(),
            }),
            _ => Reply::Done,
        };
        asked.push(what);
        task = task.resume(reply);
    }
    match task {
        Processing::Done(outcome) => (asked, outcome),
        other => panic!("{:?}", other),
    }
}

#[test]
fn merge_and_reports_follow_each_other() {
    let mut client = client();
    client.set_binary_path(path("app"));
    let (asked, outcome) = process(&client, "");
    assert_eq!(outcome, Ok(()));
    assert_eq!(
        asked,
        vec![
            "list out/e2e",
            "merge",
            "report",
            "write out/e2e/coverage.txt",
            "show",
            "export",
            "write out/e2e/lcov.info",
        ]
    );
}

#[test]
fn the_first_failure_ends_the_processing() {
    let mut client = client();
    client.set_binary_path(path("app"));
    let (asked, outcome) = process(&client, "show");
    assert_eq!(
        outcome,
        Err(CoverageError::LlvmCov("llvm-cov show --format=html failed: bad".to_string()))
    );
    assert_eq!(asked.last().unwrap(), "show");
    let (asked, outcome) = process(&client, "merge");
    assert_eq!(
        outcome,
        Err(CoverageError::LlvmProfdata("llvm-profdata merge failed: bad".to_string()))
    );
    assert_eq!(asked, vec!["list out/e2e", "merge"]);
}

#[test]
fn profiles_are_merged_before_the_binary_is_missed() {
    let (asked, outcome) = process(&client(), "");
    assert_eq!(asked, vec!["list out/e2e", "merge"]);
    assert_eq!(
        outcome,
        Err(CoverageError::Other(
            "Binary path required for llvm-cov report. Call set_binary_path() first.".to_string()
        ))
    );
}

#[test]
fn replies_after_the_outcome_change_nothing() {
    let mut task = client().process_reports("e2e");
    task = task.resume(Reply::Entries(vec![]));
    let Processing::Done(outcome) = &task else { panic!("{:?}", task) };
    assert!(outcome.is_err());
    let before = format!("{:?}", task);
    task = task.resume(Reply::Entries(vec![Some(path("a.profraw"))]));
    task = task.resume(Reply::Done);
    assert_eq!(format!("{:?}", task), before);
    assert!(task.request().is_none());
}
