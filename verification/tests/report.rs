use coverage_http::client::CoverageClient;
use coverage_http::error::CoverageError;
use coverage_http::path::FilePath;
use coverage_http::report::{Report, ReportStage};
use coverage_http::request::{CommandLine, Output, Reply, Request};

fn path(text: &str) -> FilePath {
    FilePath::from_text(text)
}

fn client() -> CoverageClient {
    let mut client = CoverageClient::new("ns", path("out"));
    client
        .set_binary_path(path("/opt/app"))
        .set_source_dir(path("/src"))
        .set_llvm_cov_path(path("/opt/llvm-cov"));
    client
}

fn run(args: &[&str]) -> Option<Request> {
    Some(Request::Run(CommandLine {
        program: path("/opt/llvm-cov"),
        args: args.iter().map(|arg| arg.as_bytes().to_vec()).collect(),
    }))
}

fn ran(success: bool) -> Reply {
    Reply::Ran(Output { success, stdout: b"table".to_vec(), stderr: b"bad".to_vec() })
}

fn reports(client: &CoverageClient) -> Vec<Report> {
    vec![
        client.generate_text_report("e2e"),
        client.generate_html_report("e2e"),
        client.generate_lcov_report("e2e"),
    ]
}

#[test]
fn every_kind_of_report_has_its_command() {
    let all = reports(&client());
    assert_eq!(
        all[0].request(),
        run(&[
            "report",
            "--use-color=false",
            "--instr-profile=out/e2e/coverage.profdata",
            "/opt/app",
            "--source-dir=/src",
            "--ignore-filename-regex=coverage_server",
        ])
    );
    assert_eq!(
        all[1].request(),
        run(&[
            "show",
            "--format=html",
            "--instr-profile=out/e2e/coverage.profdata",
            "--output-dir=out/e2e/html",
            "/opt/app",
            "--source-dir=/src",
            "--ignore-filename-regex=coverage_server",
        ])
    );
    assert_eq!(
        all[2].request(),
        run(&[
            "export",
            "--format=lcov",
            "--instr-profile=out/e2e/coverage.profdata",
            "/opt/app",
            "--source-dir=/src",
            "--ignore-filename-regex=coverage_server",
        ])
    );
}

#[test]
fn text_and_lcov_reports_are_written_to_their_files() {
    for (report, file) in [
        (client().generate_text_report("e2e"), "out/e2e/coverage.txt"),
        (client().generate_lcov_report("e2e"), "out/e2e/lcov.info"),
    ] {
        let report = report.resume(ran(true));
        assert_eq!(
            report.request(),
            Some(Request::WriteFile { path: path(file), contents: b"table".to_vec() })
        );
        assert_eq!(report.resume(Reply::Done).stage, ReportStage::Done(Ok(path(file))));
    }
}

#[test]
fn an_html_report_is_written_by_the_tool() {
    let report = client().generate_html_report("e2e").resume(ran(true));
    assert_eq!(report.stage, ReportStage::Done(Ok(path("out/e2e/html"))));
    assert_eq!(report.request(), None);
}

#[test]
fn reports_need_a_binary() {
    let bare = CoverageClient::new("ns", path("out"));
    let messages = [
        "Binary path required for llvm-cov report. Call set_binary_path() first.",
        "Binary path required for llvm-cov. Call set_binary_path() first.",
        "Binary path required for llvm-cov. Call set_binary_path() first.",
    ];
    for (report, message) in reports(&bare).into_iter().zip(messages) {
        assert_eq!(report.request(), None);
        assert_eq!(
            report.stage,
            ReportStage::Done(Err(CoverageError::Other(message.to_string())))
        );
    }
}

#[test]
fn a_report_that_fails_is_quoted() {
    let messages = [
        "llvm-cov report failed: bad",
        "llvm-cov show --format=html failed: bad",
        "llvm-cov export --format=lcov failed: bad",
    ];
    for (report, message) in reports(&client()).into_iter().zip(messages) {
        assert_eq!(
            report.resume(ran(false)).stage,
            ReportStage::Done(Err(CoverageError::LlvmCov(message.to_string())))
        );
    }
}

#[test]
fn a_tool_or_file_that_cannot_be_used_is_an_error() {
    let io = ReportStage::Done(Err(CoverageError::Io("x".to_string())));
    let failed = || Reply::Failed("x".to_string());
    assert_eq!(client().generate_html_report("e2e").resume(failed()).stage, io);
    assert_eq!(client().generate_text_report("e2e").resume(ran(true)).resume(failed()).stage, io);
}

#[test]
fn an_absolute_test_name_stands_for_itself() {
    let report = client().generate_text_report("/elsewhere");
    assert_eq!(report.target, path("/elsewhere/coverage.txt"));
}
