use base64::engine::general_purpose::STANDARD;
use base64::Engine;
use coverage_http::headers::{coverport_headers, Identity};
use coverage_http::path::FilePath;
use coverage_http::server::{
    choose_port, collect_profraw_in_memory, coverage_response, handle_coverage, handle_health,
    handle_reset_counters, profile_buffer, Answer, Body, CoverageResponse, CoverageServer,
    ErrorResponse,
};

fn identity() -> Identity {
    Identity {
        binary: Some(FilePath::from_text("/opt/app")),
        pid: 42,
        source_commit: Some("abc123".to_string()),
        source_url: Some("https://example.com/repo".to_string()),
    }
}

fn field(identity: &Identity, name: &str) -> Option<String> {
    coverport_headers(identity)
        .get(name)
        .map(|value| String::from_utf8(value.as_bytes().to_vec()).unwrap())
}

#[test]
fn a_server_is_known_by_its_header_fields() {
    let headers = coverport_headers(&identity());
    assert_eq!(headers.len(), 5);
    assert_eq!(field(&identity(), "X-Art-Coverage-Server"), Some("1".to_string()));
    assert_eq!(field(&identity(), "x-art-coverage-binary"), Some("/opt/app".to_string()));
    assert_eq!(field(&identity(), "X-Art-Coverage-Pid"), Some("42".to_string()));
    assert_eq!(field(&identity(), "X-Art-Coverage-Source-Commit"), Some("abc123".to_string()));
    assert_eq!(
        field(&identity(), "X-Art-Coverage-Source-Url"),
        Some("https://example.com/repo".to_string())
    );
}

#[test]
fn what_is_not_known_has_no_field() {
    let mut unknown = identity();
    unknown.binary = None;
    unknown.source_commit = None;
    unknown.source_url = Some("bad\nvalue".to_string());
    assert_eq!(coverport_headers(&unknown).len(), 3);
    assert_eq!(field(&unknown, "X-Art-Coverage-Binary"), Some(String::new()));
}

#[test]
fn a_binary_that_no_field_can_hold_is_unknown() {
    let mut odd = identity();
    for (text, shown) in [("/a\nb", "unknown"), ("/a\u{7f}", "unknown"), ("/a\tb", "/a\tb"), ("/é", "/é")] {
        odd.binary = Some(FilePath::from_text(text));
        assert_eq!(field(&odd, "X-Art-Coverage-Binary"), Some(shown.to_string()));
    }
}

#[test]
fn the_port_is_that_of_the_variable() {
    assert_eq!(CoverageServer::new(53700, None).port, 53700);
    assert_eq!(CoverageServer::new(53700, Some("9095".to_string())).port, 9095);
    assert_eq!(CoverageServer::new(53700, Some("70000".to_string())).port, 53700);
    assert_eq!(CoverageServer::new(53700, Some("".to_string())).port, 53700);
    assert_eq!(choose_port(&Some("+80".to_string()), 8000), 80);
}

#[test]
fn a_profile_needs_a_size() {
    assert_eq!(
        profile_buffer(0),
        Err("Profile buffer size is 0 — coverage may not be enabled".to_string())
    );
    assert_eq!(profile_buffer(3), Ok(vec![0, 0, 0]));
}

#[test]
fn a_profile_that_was_not_written_is_an_error() {
    assert_eq!(collect_profraw_in_memory(vec![1, 2], 0), Ok(vec![1, 2]));
    assert_eq!(
        collect_profraw_in_memory(vec![1, 2], -1),
        Err("__llvm_profile_write_buffer failed with error code: -1".to_string())
    );
}

fn coverage(answer: Answer) -> CoverageResponse {
    match answer.body {
        Body::Coverage(response) => response,
        other => panic!("{:?}", other),
    }
}

#[test]
fn a_profile_is_served_in_base64() {
    let answer = handle_coverage(&identity(), Ok(b"hello".to_vec()), Some(1_700_000_000_000_000_001));
    assert_eq!(answer.status, 200);
    assert_eq!(answer.headers.get("X-Art-Coverage-Server").unwrap(), "1");
    assert_eq!(
        coverage(answer),
        CoverageResponse {
            profraw_filename: "coverage.42.1700000000000000001.profraw".to_string(),
            profraw_data: "aGVsbG8=".to_string(),
            profraw_size: 5,
            timestamp: 1_700_000_000_000_000_001,
            coverage_enabled: true,
        }
    );
}

#[test]
fn what_is_served_decodes_to_the_profile() {
    for profile in [Vec::new(), vec![0], vec![255, 254], (0..=255).collect::<Vec<u8>>()] {
        let response = coverage(handle_coverage(&identity(), Ok(profile.clone()), None));
        assert_eq!(response.timestamp, 0);
        assert_eq!(response.profraw_size, profile.len());
        assert_eq!(STANDARD.decode(response.profraw_data).unwrap(), profile);
    }
}

#[test]
fn moments_are_cut_to_sixty_four_bits() {
    let response = coverage_response("QQ==".to_string(), 1, 7, Some((1u128 << 64) + 5));
    assert_eq!(response.timestamp, 5);
    assert_eq!(response.profraw_filename, "coverage.7.5.profraw");
    assert_eq!(response.profraw_data, "QQ==");
}

#[test]
fn a_profile_that_is_missing_is_a_server_error() {
    let answer = handle_coverage(&identity(), Err("no coverage".to_string()), Some(1));
    assert_eq!(answer.status, 500);
    assert_eq!(answer.headers.len(), 5);
    assert_eq!(answer.body, Body::Error(ErrorResponse { error: "no coverage".to_string() }));
}

#[test]
fn the_other_routes_answer_in_plain_text() {
    let reset = handle_reset_counters(&identity());
    assert_eq!((reset.status, reset.headers.len()), (200, 5));
    assert_eq!(reset.body, Body::Text("Counters reset successfully".to_string()));
    let health = handle_health(&identity());
    assert_eq!((health.status, health.headers.len()), (200, 5));
    assert_eq!(health.body, Body::Text("coverage server healthy".to_string()));
}

#[test]
fn files_of_different_moments_have_different_names() {
    let name = |pid: u32, nanos: u128| {
        coverage_response(String::new(), 0, pid, Some(nanos)).profraw_filename
    };
    assert_ne!(name(1, 23), name(12, 3));
    assert_ne!(name(1, 2), name(1, 3));
    assert_eq!(name(1, 2), name(1, 2));
}
