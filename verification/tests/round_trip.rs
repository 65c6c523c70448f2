use coverage_http::client::CoverageClient;
use coverage_http::headers::Identity;
use coverage_http::path::{has_profraw_extension, FilePath};
use coverage_http::request::{CoverageResponse, Reply, Request};
use coverage_http::server::{handle_coverage, Body};
use coverage_http::status::HttpStatus;

#[test]
fn a_profile_arrives_as_it_was_and_is_merged() {
    let profile: Vec<u8> = (0..1000u32).map(|i| (i * 7 % 256) as u8).collect();
    let identity = Identity { binary: None, pid: 9, source_commit: None, source_url: None };
    let answer = handle_coverage(&identity, Ok(profile.clone()), Some(123));
    let status = HttpStatus::new(answer.status).unwrap();
    let served = match answer.body {
        Body::Coverage(served) => served,
        other => panic!("{:?}", other),
    };
    assert!(has_profraw_extension(&FilePath::from_text(&served.profraw_filename)));

    let mut client = CoverageClient::new("ns", FilePath::from_text("out"));
    client.set_llvm_profdata_path(FilePath::from_text("llvm-profdata"));
    let task = client
        .collect_from_url("http://host/coverage", "e2e")
        .resume(Reply::Done)
        .resume(Reply::Status(status))
        .resume(Reply::Coverage(CoverageResponse {
            profraw_filename: served.profraw_filename.clone(),
            profraw_data: served.profraw_data,
            timestamp: served.timestamp,
            coverage_enabled: served.coverage_enabled,
        }));
    assert_eq!(
        task.request(),
        Some(Request::WriteFile {
            path: FilePath::from_text("out/e2e/coverage.9.123.profraw"),
            contents: profile,
        })
    );

    let merge = client
        .merge_profdata("e2e")
        .resume(Reply::Entries(vec![Some(FilePath::from_text(&served.profraw_filename))]));
    match merge.request() {
        Some(Request::Run(command)) => {
            assert_eq!(command.args[2], b"out/e2e/coverage.9.123.profraw".to_vec());
        }
        other => panic!("{:?}", other),
    }
}
