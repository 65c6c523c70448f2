use coverage_http::client::CoverageClient;
use coverage_http::path::FilePath;
use coverage_http::request::Reply;

fn client() -> CoverageClient {
    let mut client = CoverageClient::new("ns", FilePath::from_text("out"));
    client.set_binary_path(FilePath::from_text("app"));
    client
}

#[test]
fn replies_that_were_not_asked_for_change_nothing() {
    let stray = || Reply::Clock(Some(1));
    assert_eq!(client().get_pod_name("s").resume(stray()), client().get_pod_name("s"));
    assert_eq!(client().collect_from_url("u", "t").resume(stray()), client().collect_from_url("u", "t"));
    assert_eq!(
        client().collect_from_pod("p", "t", 1).resume(stray()),
        client().collect_from_pod("p", "t", 1)
    );
    assert_eq!(client().merge_profdata("t").resume(stray()), client().merge_profdata("t"));
    assert_eq!(client().generate_text_report("t").resume(stray()), client().generate_text_report("t"));
    assert_eq!(client().process_reports("t").resume(stray()), client().process_reports("t"));
    assert_eq!(client().print_summary("t").resume(stray()), client().print_summary("t"));
    assert_eq!(client().reset_counters("u").resume(stray()), client().reset_counters("u"));
}

#[test]
fn an_operation_that_is_over_stays_so() {
    let over = || client().print_summary("t").resume(Reply::Exists(false));
    assert_eq!(over().request(), None);
    assert_eq!(over().resume(Reply::Exists(true)), over());
    let failed = || client().merge_profdata("t").resume(Reply::Failed("x".to_string()));
    assert_eq!(failed().request(), None);
    assert_eq!(failed().resume(Reply::Entries(Vec::new())), failed());
}
