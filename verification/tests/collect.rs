use base64::engine::general_purpose::STANDARD;
use base64::Engine;
use coverage_http::client::CoverageClient;
use coverage_http::collect::{
    chrono_timestamp, refused, store_profile, CollectStage, PodCollection, PodStage, UrlCollection,
};
use coverage_http::encoding::Base64Error;
use coverage_http::error::CoverageError;
use coverage_http::path::FilePath;
use coverage_http::request::{
    CollectionMetadata, CommandLine, CoverageResponse, Reply, Request,
};
use coverage_http::status::HttpStatus;

fn path(text: &str) -> FilePath {
    FilePath::from_text(text)
}

fn client() -> CoverageClient {
    CoverageClient::new("ns", path("out"))
}

fn status(code: u16) -> Reply {
    Reply::Status(HttpStatus::new(code).unwrap())
}

fn failed(text: &str) -> Reply {
    Reply::Failed(text.to_string())
}

fn response(data: &str, enabled: bool) -> Reply {
    Reply::Coverage(CoverageResponse {
        profraw_filename: "coverage.7.9.profraw".to_string(),
        profraw_data: data.to_string(),
        timestamp: 9,
        coverage_enabled: enabled,
    })
}

fn collection() -> UrlCollection {
    client().collect_from_url("http://host/coverage", "e2e")
}

fn after(replies: Vec<Reply>) -> UrlCollection {
    replies.into_iter().fold(collection(), |task, reply| task.resume(reply))
}

fn error_of(replies: Vec<Reply>) -> CoverageError {
    match after(replies).stage {
        CollectStage::Done(Err(error)) => error,
        stage => panic!("{:?}", stage),
    }
}

#[test]
fn a_profile_is_collected() {
    let data = STANDARD.encode([0u8, 255, 1, 128]);
    assert_eq!(collection().request(), Some(Request::CreateDir(path("out/e2e"))));
    assert_eq!(
        after(vec![Reply::Done]).request(),
        Some(Request::Post {
            url: "http://host/coverage".to_string(),
            test_name: Some("e2e".to_string()),
        })
    );
    assert_eq!(after(vec![Reply::Done, status(200)]).request(), Some(Request::ReadCoverage));
    let read = after(vec![Reply::Done, status(200), response(&data, true)]);
    assert_eq!(
        read.request(),
        Some(Request::WriteFile {
            path: path("out/e2e/coverage.7.9.profraw"),
            contents: vec![0, 255, 1, 128],
        })
    );
    let done = read.resume(Reply::Done);
    assert_eq!(done.stage, CollectStage::Done(Ok(path("out/e2e/coverage.7.9.profraw"))));
    assert_eq!(done.request(), None);
}

#[test]
fn a_refusal_is_quoted() {
    let refused = after(vec![Reply::Done, status(404)]);
    assert_eq!(refused.request(), Some(Request::ReadBody));
    assert_eq!(
        refused.resume(Reply::Body(Some("nope".to_string()))).stage,
        CollectStage::Done(Err(CoverageError::Other(
            "Coverage server returned 404 Not Found: nope".to_string()
        )))
    );
    assert_eq!(
        error_of(vec![Reply::Done, status(500), Reply::Body(None)]),
        CoverageError::Other("Coverage server returned 500 Internal Server Error: ".to_string())
    );
}

#[test]
fn the_quoted_status_is_the_one_given() {
    assert_eq!(
        refused("418 I'm a teapot", Some("short".to_string())),
        CoverageError::Other("Coverage server returned 418 I'm a teapot: short".to_string())
    );
}

#[test]
fn failures_on_the_way_have_their_kind() {
    assert_eq!(error_of(vec![failed("full")]), CoverageError::Io("full".to_string()));
    assert_eq!(
        error_of(vec![Reply::Done, failed("refused")]),
        CoverageError::Http("refused".to_string())
    );
    assert_eq!(
        error_of(vec![Reply::Done, status(200), failed("no json")]),
        CoverageError::Http("no json".to_string())
    );
    assert_eq!(
        error_of(vec![Reply::Done, status(200), response("QQ==", true), failed("full")]),
        CoverageError::Io("full".to_string())
    );
}

#[test]
fn a_target_without_coverage_writes_nothing() {
    assert_eq!(
        error_of(vec![Reply::Done, status(204), response("QQ==", false)]),
        CoverageError::CoverageNotEnabled
    );
}

#[test]
fn data_that_is_not_base64_is_an_error() {
    let cases = [
        ("a?==", Base64Error::InvalidByte { offset: 1, byte: b'?' }),
        ("QUJDR", Base64Error::InvalidLength { length: 5 }),
        ("QR==", Base64Error::InvalidLastSymbol { offset: 1, byte: b'R' }),
        ("QQ", Base64Error::InvalidPadding),
    ];
    for (data, error) in cases {
        assert_eq!(
            error_of(vec![Reply::Done, status(200), response(data, true)]),
            CoverageError::Base64(error)
        );
    }
}

#[test]
fn decoded_data_goes_to_the_named_file() {
    assert_eq!(
        store_profile(&path("dir"), "a.profraw", Ok(vec![1, 2])),
        CollectStage::Saving { path: path("dir/a.profraw"), contents: vec![1, 2] }
    );
    assert_eq!(
        store_profile(&path("dir"), "a.profraw", Err(Base64Error::InvalidPadding)),
        CollectStage::Done(Err(CoverageError::Base64(Base64Error::InvalidPadding)))
    );
}

fn pod_collection() -> PodCollection {
    let mut client = client();
    client.set_binary_path(path("/opt/app"));
    client.collect_from_pod("demo-1", "e2e", 9095)
}

fn pod_after(replies: Vec<Reply>) -> PodCollection {
    replies.into_iter().fold(pod_collection(), |task, reply| task.resume(reply))
}

#[test]
fn a_pod_is_collected_through_a_forwarded_port() {
    let mut task = pod_collection();
    let mut asked = Vec::new();
    let replies = vec![
        Reply::Done,
        Reply::Done,
        Reply::Done,
        Reply::Done,
        status(200),
        response("QUI=", true),
        Reply::Done,
        failed("already gone"),
        Reply::Clock(Some(1_700_000_000)),
        Reply::Done,
    ];
    for reply in replies {
        asked.push(task.request().unwrap());
        task = task.resume(reply);
    }
    let profile = path("out/e2e/coverage.7.9.profraw");
    assert_eq!(
        asked,
        vec![
            Request::CreateDir(path("out/e2e")),
            Request::Start(CommandLine {
                program: path("kubectl"),
                args: ["port-forward", "-n", "ns", "pod/demo-1", "0:9095"]
                    .iter()
                    .map(|arg| arg.as_bytes().to_vec())
                    .collect(),
            }),
            Request::Wait(2),
            Request::CreateDir(path("out/e2e")),
            Request::Post {
                url: "http://127.0.0.1:9095/coverage".to_string(),
                test_name: Some("e2e".to_string()),
            },
            Request::ReadCoverage,
            Request::WriteFile { path: path("out/e2e/coverage.7.9.profraw"), contents: vec![65, 66] },
            Request::Stop,
            Request::Clock,
            Request::WriteMetadata {
                path: path("out/e2e/metadata.json"),
                metadata: CollectionMetadata {
                    pod_name: "demo-1".to_string(),
                    namespace: "ns".to_string(),
                    container: None,
                    test_name: "e2e".to_string(),
                    timestamp: "1700000000s".to_string(),
                    binary_path: Some("/opt/app".to_string()),
                },
            },
        ]
    );
    assert_eq!(task.stage, PodStage::Done(Ok(profile)));
    assert_eq!(task.request(), None);
}

#[test]
fn the_forwarding_is_ended_where_the_collection_fails() {
    let failing = pod_after(vec![
        Reply::Done,
        Reply::Done,
        Reply::Done,
        Reply::Done,
        failed("connection refused"),
    ]);
    assert_eq!(failing.request(), Some(Request::Stop));
    assert_eq!(
        failing.resume(Reply::Done).stage,
        PodStage::Done(Err(CoverageError::Http("connection refused".to_string())))
    );
}

#[test]
fn a_collection_that_never_forwards_stops_nothing() {
    assert_eq!(
        pod_after(vec![failed("full")]).stage,
        PodStage::Done(Err(CoverageError::Io("full".to_string())))
    );
    assert_eq!(
        pod_after(vec![Reply::Done, failed("no kubectl")]).stage,
        PodStage::Done(Err(CoverageError::Kubectl(
            "Failed to start port-forward: no kubectl".to_string()
        )))
    );
}

#[test]
fn a_record_that_cannot_be_written_is_an_error() {
    let replies = || {
        vec![
            Reply::Done,
            Reply::Done,
            Reply::Done,
            Reply::Done,
            status(200),
            response("QUI=", true),
            Reply::Done,
            Reply::Done,
            Reply::Clock(None),
        ]
    };
    assert_eq!(
        pod_after(replies()).resume(Reply::NotJson("cycle".to_string())).stage,
        PodStage::Done(Err(CoverageError::Json("cycle".to_string())))
    );
    assert_eq!(
        pod_after(replies()).resume(failed("full")).stage,
        PodStage::Done(Err(CoverageError::Io("full".to_string())))
    );
}

#[test]
fn moments_are_written_in_seconds() {
    assert_eq!(chrono_timestamp(Some(1_700_000_000)), "1700000000s");
    assert_eq!(chrono_timestamp(None), "0s");
}
