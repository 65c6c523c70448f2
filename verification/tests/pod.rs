use coverage_http::client::CoverageClient;
use coverage_http::error::CoverageError;
use coverage_http::path::FilePath;
use coverage_http::pod::{resolve_pod, LookupStage, PodLookup};
use coverage_http::request::{CommandLine, Output, Reply, Request};

fn client() -> CoverageClient {
    CoverageClient::new("coverage-demo", FilePath::from_text("out"))
}

fn ran(success: bool, stdout: &str, stderr: &str) -> Reply {
    Reply::Ran(Output {
        success,
        stdout: stdout.as_bytes().to_vec(),
        stderr: stderr.as_bytes().to_vec(),
    })
}

fn kubectl(text: &str) -> LookupStage {
    LookupStage::Done(Err(CoverageError::Kubectl(text.to_string())))
}

fn lookup(reply: Reply) -> PodLookup {
    client().get_pod_name("app=demo").resume(reply)
}

#[test]
fn kubectl_is_asked_for_the_first_running_pod() {
    let args = [
        "get",
        "pods",
        "-n",
        "coverage-demo",
        "-l",
        "app=demo",
        "--field-selector=status.phase=Running",
        "-o",
        "jsonpath={.items[0].metadata.name}",
    ];
    assert_eq!(
        client().get_pod_name("app=demo").request(),
        Some(Request::Run(CommandLine {
            program: FilePath::from_text("kubectl"),
            args: args.iter().map(|arg| arg.as_bytes().to_vec()).collect(),
        }))
    );
}

#[test]
fn the_name_of_the_pod_is_trimmed() {
    let task = lookup(ran(true, " demo-6f7d\n", "warning"));
    assert_eq!(task.stage, LookupStage::Done(Ok("demo-6f7d".to_string())));
    assert_eq!(task.request(), None);
}

#[test]
fn kubectl_that_cannot_run_is_an_error() {
    assert_eq!(
        lookup(Reply::Failed("not found".to_string())).stage,
        kubectl("Failed to run kubectl: not found")
    );
}

#[test]
fn kubectl_that_fails_is_quoted() {
    assert_eq!(
        lookup(ran(false, "demo", "forbidden\n")).stage,
        kubectl("kubectl get pods failed: forbidden\n")
    );
}

#[test]
fn no_pod_is_an_error() {
    for stdout in ["", " \n"] {
        assert_eq!(
            lookup(ran(true, stdout, "")).stage,
            kubectl("No running pod found with selector: app=demo")
        );
    }
}

#[test]
fn a_named_pod_is_taken_as_it_is() {
    let both = resolve_pod(&client(), Some("p".to_string()), Some("app=demo".to_string()));
    assert_eq!(both.stage, LookupStage::Done(Ok("p".to_string())));
    let selected = resolve_pod(&client(), None, Some("app=demo".to_string()));
    assert_eq!(selected, client().get_pod_name("app=demo"));
    let neither = resolve_pod(&client(), None, None);
    assert_eq!(
        neither.stage,
        LookupStage::Done(Err(CoverageError::Other(
            "Either --pod or --selector must be provided".to_string()
        )))
    );
}
