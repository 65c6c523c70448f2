use coverage_http::client::CoverageClient;
use coverage_http::error::CoverageError;
use coverage_http::path::FilePath;
use coverage_http::request::{Reply, Request};
use coverage_http::status::HttpStatus;
use coverage_http::summary::{Reset, ResetStage, Summary, SummaryStage};

fn client() -> CoverageClient {
    CoverageClient::new("ns", FilePath::from_text("out"))
}

fn summary() -> Summary {
    client().print_summary("e2e")
}

fn report() -> FilePath {
    FilePath::from_text("out/e2e/coverage.txt")
}

#[test]
fn the_text_report_is_printed_under_the_name_of_the_test() {
    assert_eq!(summary().request(), Some(Request::Exists(report())));
    let task = summary().resume(Reply::Exists(true));
    assert_eq!(task.request(), Some(Request::ReadFile(report())));
    let task = task.resume(Reply::Text("TOTAL 90%\n".to_string()));
    assert_eq!(
        task.request(),
        Some(Request::Print("=== Coverage Summary for 'e2e' ===\nTOTAL 90%\n\n".to_string()))
    );
    assert_eq!(task.resume(Reply::Done).stage, SummaryStage::Done(Ok(())));
}

#[test]
fn without_a_report_nothing_is_printed() {
    let task = summary().resume(Reply::Exists(false));
    assert_eq!(task.stage, SummaryStage::Done(Ok(())));
    assert_eq!(task.request(), None);
}

#[test]
fn a_report_that_cannot_be_read_is_an_error() {
    let task = summary().resume(Reply::Exists(true)).resume(Reply::Failed("denied".to_string()));
    assert_eq!(
        task.stage,
        SummaryStage::Done(Err(CoverageError::Io("denied".to_string())))
    );
}

fn reset() -> Reset {
    client().reset_counters("http://host/coverage/reset")
}

fn status(code: u16) -> Reply {
    Reply::Status(HttpStatus::new(code).unwrap())
}

#[test]
fn counters_are_reset() {
    assert_eq!(
        reset().request(),
        Some(Request::Post { url: "http://host/coverage/reset".to_string(), test_name: None })
    );
    assert_eq!(reset().resume(status(200)).stage, ResetStage::Done(Ok(())));
}

#[test]
fn a_reset_that_fails_is_quoted() {
    assert_eq!(
        reset().resume(Reply::Failed("refused".to_string())).stage,
        ResetStage::Done(Err(CoverageError::Http("refused".to_string())))
    );
    assert_eq!(reset().resume(status(500)).request(), Some(Request::ReadBody));
    for (body, text) in [(Some("down".to_string()), "down"), (None, "")] {
        assert_eq!(
            reset().resume(status(500)).resume(Reply::Body(body)).stage,
            ResetStage::Done(Err(CoverageError::Other(format!(
                "Failed to reset counters: {}",
                text
            ))))
        );
    }
}
