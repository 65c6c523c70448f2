use coverage_http::client::CoverageClient;
use coverage_http::path::FilePath;
use coverage_http::report::Report;
use coverage_http::tool_search::SearchStage;

fn path(text: &str) -> FilePath {
    FilePath::from_text(text)
}

fn args(report: &Report) -> Vec<String> {
    report.args.iter().map(|arg| String::from_utf8(arg.clone()).unwrap()).collect()
}

#[test]
fn a_new_client_leaves_out_the_coverage_server() {
    let mut client = CoverageClient::new("default", path("out"));
    client.set_binary_path(path("app"));
    assert_eq!(
        args(&client.generate_text_report("t")),
        vec![
            "report",
            "--use-color=false",
            "--instr-profile=out/t/coverage.profdata",
            "app",
            "--ignore-filename-regex=coverage_server",
        ]
    );
}

#[test]
fn filters_are_added_and_replaced() {
    let mut client = CoverageClient::new("default", path("out"));
    client.set_binary_path(path("app")).add_filter("tests/").add_filter("vendor");
    let added = args(&client.generate_lcov_report("t"));
    assert_eq!(
        added[4..].to_vec(),
        vec![
            "--ignore-filename-regex=coverage_server",
            "--ignore-filename-regex=tests/",
            "--ignore-filename-regex=vendor",
        ]
    );
    client.set_filters(vec!["only".to_string()]);
    let replaced = args(&client.generate_lcov_report("t"));
    assert_eq!(replaced[4..].to_vec(), vec!["--ignore-filename-regex=only"]);
    client.set_filters(Vec::new());
    assert_eq!(args(&client.generate_lcov_report("t")).len(), 4);
}

#[test]
fn setters_change_one_thing_each() {
    let mut one = CoverageClient::new("ns", path("out"));
    one.set_source_dir(path("src")).set_binary_path(path("app"));
    let mut other = CoverageClient::new("ns", path("out"));
    other.set_binary_path(path("app")).set_source_dir(path("src"));
    assert_eq!(one, other);
    assert_ne!(one, CoverageClient::new("ns", path("out")));
}

#[test]
fn a_configured_tool_is_not_searched_for() {
    let mut client = CoverageClient::new("ns", path("out"));
    assert_eq!(client.find_llvm_cov().stage, SearchStage::Plain);
    assert_eq!(client.find_llvm_profdata().name, "llvm-profdata");
    client.set_llvm_cov_path(path("/opt/llvm-cov")).set_llvm_profdata_path(path("/opt/profdata"));
    assert_eq!(client.find_llvm_cov().stage, SearchStage::Done(Ok(path("/opt/llvm-cov"))));
    assert_eq!(client.find_llvm_profdata().stage, SearchStage::Done(Ok(path("/opt/profdata"))));
    assert_eq!(client.find_llvm_cov().request(), None);
}
