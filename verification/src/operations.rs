//! What the functions of the library give for what they are given: what holds of their results
//! themselves, from the first call of an operation on.
//!
//! `call_ensures(f, arguments, result)` says that `result` is one that a call of `f` may give.

use crate::client::CoverageClient;
use crate::collect::{
    chrono_timestamp, law_forwarding_names_pod_and_port, law_only_success_is_read_as_coverage,
    law_pod_is_asked_behind_the_target_port, refused, store_profile, CollectStage, PodCollection,
    PodStage, UrlCollection,
};
use crate::encoding::{base64_decoded, base64_encoded, Base64Error};
use crate::error::CoverageError;
use crate::headers::{
    coverport_headers, header_fields, is_field_value, law_fields_tell_server_process_and_binary,
    law_fields_tell_the_source_that_is_known, Identity,
};
use crate::merge::{
    law_all_profiles_are_merged, law_no_profile_is_left_out, raw_profiles, Merge, MergeStage,
};
use crate::path::{joined, FilePath};
use crate::pipeline::{report_views, Processing};
use crate::pod::{resolve_pod, LookupStage, PodLookup};
use crate::report::{
    law_report_has_no_other_arguments, law_report_names_format_and_profile,
    law_report_needs_a_binary, Report, ReportKind, ReportStage,
};
use crate::request::{
    byte_strings, entries_view, request_or_none, CoverageResponse, Output, Reply, Request,
};
use crate::server::{
    choose_port, coverage_response, handle_coverage, handle_health, handle_reset_counters,
    law_coverage_answer_tells_of_the_profile, law_stamp_is_the_moment, nanosecond_stamp, Answer,
    Body, CoverageResponse as ServedResponse,
};
use crate::status::HttpStatus;
use crate::summary::{
    law_reset_posts_to_its_address, law_reset_succeeds_with_the_server, law_summary_needs_a_report,
    Reset, ResetStage, Summary, SummaryStage,
};
use crate::text::{decimal, law_decimal_is_read_back, parsed_u16, shown, trimmed, utf8};
use crate::tool_search::{find_llvm_tool, SearchStage, ToolSearch};
use axum::http::{HeaderMap, HeaderValue};
use vstd::prelude::*;
use vstd::string::*;

verus! {

/// A new client has the namespace and the output directory that it is given, leaves out the coverage
/// server, and has nothing else set.
pub proof fn law_new_client(namespace: &str, output_dir: FilePath, client: CoverageClient)
    requires
        call_ensures(CoverageClient::new, (namespace, output_dir), client),
    ensures
        client@.namespace == namespace@,
        client@.output_dir == output_dir.bytes@,
        client@.filters.len() == 1,
        client@.filters[0] == "coverage_server"@,
        client@.source_dir is None,
        client@.binary_path is None,
        client@.llvm_profdata_path is None,
        client@.llvm_cov_path is None,
{
}

/// A collection from a pod creates the directory of the test and then starts `kubectl` to forward
/// the target port of the pod, in the client's namespace.
pub proof fn law_collect_from_pod_forwards_the_target_port(
    client: &CoverageClient,
    pod_name: &str,
    test_name: &str,
    target_port: u16,
    begun: PodCollection,
    first: Option<Request>,
    prepared: PodCollection,
    second: Option<Request>,
)
    requires
        call_ensures(
            CoverageClient::collect_from_pod,
            (client, pod_name, test_name, target_port),
            begun,
        ),
        call_ensures(PodCollection::request, (&begun,), first),
        call_ensures(PodCollection::resume, (begun, Reply::Done), prepared),
        call_ensures(PodCollection::request, (&prepared,), second),
    ensures
        first matches Some(Request::CreateDir(dir)) && dir.bytes@ == joined(
            client@.output_dir,
            utf8(test_name@),
        ),
        second matches Some(Request::Start(command)) && {
            &&& command.program.bytes@ == utf8("kubectl"@)
            &&& command.args@.len() == 5
            &&& command.args@[0]@ == utf8("port-forward"@)
            &&& command.args@[1]@ == utf8("-n"@)
            &&& command.args@[2]@ == utf8(client@.namespace)
            &&& command.args@[3]@ == utf8("pod/"@ + pod_name@)
            &&& command.args@[4]@ == utf8("0:"@ + decimal(target_port as nat))
            &&& parsed_u16(decimal(target_port as nat)) == Some(target_port)
        },
{
    law_forwarding_names_pod_and_port(client@, pod_name@, test_name@, target_port);
    let args = second->Some_0->Start_0.args@;
    assert(forall|i: int| 0 <= i < args.len() ==> #[trigger] byte_strings(args)[i] == args[i]@);
    assert(byte_strings(args).len() == args.len());
    assert(byte_strings(args)[0] == args[0]@ && byte_strings(args)[1] == args[1]@);
    assert(byte_strings(args)[2] == args[2]@ && byte_strings(args)[3] == args[3]@);
    assert(byte_strings(args)[4] == args[4]@);
}

/// Two seconds after `kubectl` was started, a collection from a pod posts the name of the test to
/// the local port of the same number as the target port.
pub proof fn law_collect_from_pod_asks_the_local_port(
    client: &CoverageClient,
    pod_name: &str,
    test_name: &str,
    target_port: u16,
    begun: PodCollection,
    prepared: PodCollection,
    forwarding: PodCollection,
    waiting: Option<Request>,
    settled: PodCollection,
    posting: PodCollection,
    asked: Option<Request>,
)
    requires
        call_ensures(
            CoverageClient::collect_from_pod,
            (client, pod_name, test_name, target_port),
            begun,
        ),
        call_ensures(PodCollection::resume, (begun, Reply::Done), prepared),
        call_ensures(PodCollection::resume, (prepared, Reply::Done), forwarding),
        call_ensures(PodCollection::request, (&forwarding,), waiting),
        call_ensures(PodCollection::resume, (forwarding, Reply::Done), settled),
        call_ensures(PodCollection::resume, (settled, Reply::Done), posting),
        call_ensures(PodCollection::request, (&posting,), asked),
    ensures
        waiting == Some(Request::Wait(2)),
        asked matches Some(Request::Post { url, test_name: Some(told) }) && {
            &&& url@ == "http://127.0.0.1:"@ + decimal(target_port as nat) + "/coverage"@
            &&& told@ == test_name@
        },
{
    law_pod_is_asked_behind_the_target_port(
        client@,
        pod_name@,
        test_name@,
        target_port,
        Seq::empty(),
    );
}

/// A collection from a server creates the directory of the test, and then posts the name of the test
/// to the address that it is given. The answer is read as coverage exactly where its status is one
/// of success.
pub proof fn law_collect_from_url_asks_the_given_server(
    client: &CoverageClient,
    address: &str,
    test_name: &str,
    status: HttpStatus,
    begun: UrlCollection,
    first: Option<Request>,
    prepared: UrlCollection,
    second: Option<Request>,
    answered: UrlCollection,
    third: Option<Request>,
)
    requires
        call_ensures(CoverageClient::collect_from_url, (client, address, test_name), begun),
        call_ensures(UrlCollection::request, (&begun,), first),
        call_ensures(UrlCollection::resume, (begun, Reply::Done), prepared),
        call_ensures(UrlCollection::request, (&prepared,), second),
        call_ensures(UrlCollection::resume, (prepared, Reply::Status(status)), answered),
        call_ensures(UrlCollection::request, (&answered,), third),
    ensures
        first matches Some(Request::CreateDir(dir)) && dir.bytes@ == joined(
            client@.output_dir,
            utf8(test_name@),
        ),
        second matches Some(Request::Post { url, test_name: Some(told) }) && url@ == address@
            && told@ == test_name@,
        third == Some(Request::ReadCoverage) <==> 200 <= status@ < 300,
        third == Some(Request::ReadBody) <==> !(200 <= status@ < 300),
{
    law_only_success_is_read_as_coverage(address@, test_name@, begun@.dir, status@, None);
}

/// A moment is recorded as its seconds since the epoch, in decimal, with an `s` behind them.
pub proof fn law_chrono_timestamp_counts_seconds(seconds: Option<u64>, text: String)
    requires
        call_ensures(chrono_timestamp, (seconds,), text),
    ensures
        seconds matches Some(seconds) ==> text@ == decimal(seconds as nat) + "s"@,
        seconds is None ==> text@ == decimal(0) + "s"@,
{
}

/// A merge with a tool that is set lists the directory of the test, and runs the tool on every raw
/// profile of the listing, in its order.
pub proof fn law_merge_profdata_takes_in_every_profile(
    client: &CoverageClient,
    test_name: &str,
    entries: Vec<Option<FilePath>>,
    begun: Merge,
    first: Option<Request>,
    listed: Merge,
    second: Option<Request>,
)
    requires
        client@.llvm_profdata_path is Some,
        raw_profiles(entries_view(entries@)).len() > 0,
        call_ensures(CoverageClient::merge_profdata, (client, test_name), begun),
        call_ensures(Merge::request, (&begun,), first),
        call_ensures(Merge::resume, (begun, Reply::Entries(entries)), listed),
        call_ensures(Merge::request, (&listed,), second),
    ensures
        ({
            let dir = joined(client@.output_dir, utf8(test_name@));
            let profiles = raw_profiles(entries_view(entries@));
            &&& first matches Some(Request::ListDir(path)) && path.bytes@ == dir
            &&& second matches Some(Request::Run(command)) && {
                &&& command.program.bytes@ == client@.llvm_profdata_path->Some_0
                &&& command.args@.len() == profiles.len() + 4
                &&& command.args@[0]@ == utf8("merge"@)
                &&& command.args@[1]@ == utf8("--sparse"@)
                &&& forall|i: int|
                    0 <= i < profiles.len() ==> command.args@[i + 2]@ == joined(
                        dir,
                        #[trigger] profiles[i]->Some_0,
                    )
                &&& command.args@[command.args@.len() - 2]@ == utf8("-o"@)
                &&& command.args@.last()@ == joined(dir, utf8("coverage.profdata"@))
            }
        }),
{
    let dir = joined(client@.output_dir, utf8(test_name@));
    let profiles = raw_profiles(entries_view(entries@));
    law_all_profiles_are_merged(
        client@,
        test_name@,
        client@.llvm_profdata_path->Some_0,
        entries_view(entries@),
    );
    let args = second->Some_0->Run_0.args@;
    assert(byte_strings(args).len() == args.len());
    assert(byte_strings(args)[0] == args[0]@ && byte_strings(args)[1] == args[1]@);
    assert(byte_strings(args)[args.len() - 2] == args[args.len() - 2]@);
    assert(byte_strings(args).last() == args.last()@);
    assert forall|i: int| 0 <= i < profiles.len() implies args[i + 2]@ == joined(
        dir,
        #[trigger] profiles[i]->Some_0,
    ) by {
        assert(byte_strings(args)[i + 2] == args[i + 2]@);
    }
}

/// A report of a client whose binary and `llvm-cov` are set runs that tool: in the format of the
/// report, on the merged profile data of the test, and on the binary.
pub proof fn law_reports_run_in_their_format(
    client: &CoverageClient,
    test_name: &str,
    text: Report,
    html: Report,
    lcov: Report,
)
    requires
        client@.binary_path is Some,
        client@.llvm_cov_path is Some,
        call_ensures(CoverageClient::generate_text_report, (client, test_name), text),
        call_ensures(CoverageClient::generate_html_report, (client, test_name), html),
        call_ensures(CoverageClient::generate_lcov_report, (client, test_name), lcov),
    ensures
        ({
            let dir = joined(client@.output_dir, utf8(test_name@));
            let profile = utf8(
                "--instr-profile="@ + shown(joined(dir, utf8("coverage.profdata"@))),
            );
            let binary = client@.binary_path->Some_0;
            let pages = joined(dir, utf8("html"@));
            &&& text.args@.len() >= 4 && lcov.args@.len() >= 4 && html.args@.len() >= 5
            &&& text.args@[0]@ == utf8("report"@) && text.args@[1]@ == utf8("--use-color=false"@)
            &&& html.args@[0]@ == utf8("show"@) && html.args@[1]@ == utf8("--format=html"@)
            &&& lcov.args@[0]@ == utf8("export"@) && lcov.args@[1]@ == utf8("--format=lcov"@)
            &&& text.args@[2]@ == profile && html.args@[2]@ == profile && lcov.args@[2]@ == profile
            &&& html.args@[3]@ == utf8("--output-dir="@ + shown(pages))
            &&& text.args@[3]@ == binary && html.args@[4]@ == binary && lcov.args@[3]@ == binary
            &&& text.target.bytes@ == joined(dir, utf8("coverage.txt"@))
            &&& html.target.bytes@ == pages
            &&& lcov.target.bytes@ == joined(dir, utf8("lcov.info"@))
            &&& text.stage matches ReportStage::Running(tool) && tool.bytes@
                == client@.llvm_cov_path->Some_0
            &&& html.stage matches ReportStage::Running(tool) && tool.bytes@
                == client@.llvm_cov_path->Some_0
            &&& lcov.stage matches ReportStage::Running(tool) && tool.bytes@
                == client@.llvm_cov_path->Some_0
        }),
{
    law_report_names_format_and_profile(client@, ReportKind::Text, test_name@);
    law_report_names_format_and_profile(client@, ReportKind::Html, test_name@);
    law_report_names_format_and_profile(client@, ReportKind::Lcov, test_name@);
    law_report_has_no_other_arguments(client@, ReportKind::Text, test_name@);
    law_report_has_no_other_arguments(client@, ReportKind::Html, test_name@);
    law_report_has_no_other_arguments(client@, ReportKind::Lcov, test_name@);
    law_report_needs_a_binary(client@, ReportKind::Text, test_name@);
    law_report_needs_a_binary(client@, ReportKind::Html, test_name@);
    law_report_needs_a_binary(client@, ReportKind::Lcov, test_name@);
    assert(text@.args.len() == text.args@.len() && text@.args[0] == text.args@[0]@);
    assert(text@.args[1] == text.args@[1]@ && text@.args[2] == text.args@[2]@);
    assert(text@.args[3] == text.args@[3]@);
    assert(html@.args.len() == html.args@.len() && html@.args[0] == html.args@[0]@);
    assert(html@.args[1] == html.args@[1]@ && html@.args[2] == html.args@[2]@);
    assert(html@.args[3] == html.args@[3]@ && html@.args[4] == html.args@[4]@);
    assert(lcov@.args.len() == lcov.args@.len() && lcov@.args[0] == lcov.args@[0]@);
    assert(lcov@.args[1] == lcov.args@[1]@ && lcov@.args[2] == lcov.args@[2]@);
    assert(lcov@.args[3] == lcov.args@[3]@);
}

/// The processing of a test begins with its merge, as that is by itself, and has the three reports
/// before it, as each of them is by itself: text, HTML and lcov.
pub proof fn law_process_reports_is_made_of_the_single_operations(
    client: &CoverageClient,
    test_name: &str,
    processing: Processing,
    merge: Merge,
    text: Report,
    html: Report,
    lcov: Report,
)
    requires
        call_ensures(CoverageClient::process_reports, (client, test_name), processing),
        call_ensures(CoverageClient::merge_profdata, (client, test_name), merge),
        call_ensures(CoverageClient::generate_text_report, (client, test_name), text),
        call_ensures(CoverageClient::generate_html_report, (client, test_name), html),
        call_ensures(CoverageClient::generate_lcov_report, (client, test_name), lcov),
    ensures
        processing matches Processing::Merging { merge: begun, reports } && {
            &&& begun@ == merge@
            &&& reports@.len() == 3
            &&& reports@[0]@ == text@ && reports@[0].kind is Text
            &&& reports@[1]@ == html@ && reports@[1].kind is Html
            &&& reports@[2]@ == lcov@ && reports@[2].kind is Lcov
        },
{
    match processing {
        Processing::Merging { reports, .. } => {
            let views = report_views(reports@);
            assert(views.len() == reports@.len());
            assert(views[0] == reports@[0]@ && views[1] == reports@[1]@ && views[2]
                == reports@[2]@);
        },
        _ => {},
    }
}

/// A reset posts to the address that it is given, and is over, in success, exactly where the status
/// of the answer is one of success.
pub proof fn law_reset_counters_succeeds_with_the_server(
    client: &CoverageClient,
    address: &str,
    status: HttpStatus,
    begun: Reset,
    first: Option<Request>,
    answered: Reset,
    second: Option<Request>,
)
    requires
        call_ensures(CoverageClient::reset_counters, (client, address), begun),
        call_ensures(Reset::request, (&begun,), first),
        call_ensures(Reset::resume, (begun, Reply::Status(status)), answered),
        call_ensures(Reset::request, (&answered,), second),
    ensures
        first matches Some(Request::Post { url, test_name: None }) && url@ == address@,
        (answered.stage matches ResetStage::Done(Ok(_))) <==> 200 <= status@ < 300,
        second == Some(Request::ReadBody) <==> !(200 <= status@ < 300),
{
    law_reset_posts_to_its_address(address@, Seq::empty());
    law_reset_succeeds_with_the_server(address@, status@, None);
}

/// A reset that was refused fails, whatever the body of the answer is.
pub proof fn law_refused_reset_fails(
    client: &CoverageClient,
    address: &str,
    status: HttpStatus,
    body: Option<String>,
    begun: Reset,
    answered: Reset,
    read: Reset,
)
    requires
        !(200 <= status@ < 300),
        call_ensures(CoverageClient::reset_counters, (client, address), begun),
        call_ensures(Reset::resume, (begun, Reply::Status(status)), answered),
        call_ensures(Reset::resume, (answered, Reply::Body(body)), read),
    ensures
        read.stage matches ResetStage::Done(Err(CoverageError::Other(text))) && match body {
            Some(body) => text@ == "Failed to reset counters: "@ + body@,
            None => text@ == "Failed to reset counters: "@,
        },
{
    law_reset_succeeds_with_the_server(
        address@,
        status@,
        match body {
            Some(body) => Some(body@),
            None => None,
        },
    );
}

/// A summary looks for the text report of the test first, and is over, in success, where there is
/// none.
pub proof fn law_print_summary_looks_for_the_report(
    client: &CoverageClient,
    test_name: &str,
    there: bool,
    begun: Summary,
    first: Option<Request>,
    looked: Summary,
    second: Option<Request>,
)
    requires
        call_ensures(CoverageClient::print_summary, (client, test_name), begun),
        call_ensures(Summary::request, (&begun,), first),
        call_ensures(Summary::resume, (begun, Reply::Exists(there)), looked),
        call_ensures(Summary::request, (&looked,), second),
    ensures
        ({
            let report = joined(
                joined(client@.output_dir, utf8(test_name@)),
                utf8("coverage.txt"@),
            );
            &&& first matches Some(Request::Exists(path)) && path.bytes@ == report
            &&& there ==> (second matches Some(Request::ReadFile(path)) && path.bytes@ == report)
            &&& !there ==> second is None && (looked.stage matches SummaryStage::Done(Ok(_)))
        }),
{
    law_summary_needs_a_report(client@, test_name@);
}

/// A pod that is named is taken as it is; any other is looked up as by its selector alone.
pub proof fn law_resolve_pod_prefers_the_name(
    client: &CoverageClient,
    pod: Option<String>,
    selector: Option<String>,
    found: PodLookup,
    request: Option<Request>,
)
    requires
        call_ensures(resolve_pod, (client, pod, selector), found),
        call_ensures(PodLookup::request, (&found,), request),
    ensures
        pod matches Some(name) ==> request is None && (found.stage matches LookupStage::Done(
            Ok(taken),
        ) && taken@ == name@),
        pod is None && selector is None ==> request is None && (found.stage matches
            LookupStage::Done(Err(CoverageError::Other(text))) && text@
            == "Either --pod or --selector must be provided"@),
        pod is None && selector is Some ==> (request matches Some(Request::Run(command)) && {
            &&& command.program.bytes@ == utf8("kubectl"@)
            &&& command.args@.len() == 9
            &&& command.args@[3]@ == utf8(client@.namespace)
            &&& command.args@[5]@ == utf8(selector->Some_0@)
        }),
{
    if pod is None && selector is Some {
        let args = request->Some_0->Run_0.args@;
        assert(byte_strings(args).len() == args.len());
        assert(byte_strings(args)[3] == args[3]@ && byte_strings(args)[5] == args[5]@);
    }
}

/// A lookup by a selector runs `kubectl` in the client's namespace, for the pods that run and that
/// the selector picks.
pub proof fn law_get_pod_name_asks_kubectl(
    client: &CoverageClient,
    selector: &str,
    begun: PodLookup,
    request: Option<Request>,
)
    requires
        call_ensures(CoverageClient::get_pod_name, (client, selector), begun),
        call_ensures(PodLookup::request, (&begun,), request),
    ensures
        request matches Some(Request::Run(command)) && {
            &&& command.program.bytes@ == utf8("kubectl"@)
            &&& command.args@.len() == 9
            &&& command.args@[0]@ == utf8("get"@) && command.args@[1]@ == utf8("pods"@)
            &&& command.args@[2]@ == utf8("-n"@) && command.args@[3]@ == utf8(client@.namespace)
            &&& command.args@[4]@ == utf8("-l"@) && command.args@[5]@ == utf8(selector@)
            &&& command.args@[6]@ == utf8("--field-selector=status.phase=Running"@)
            &&& command.args@[7]@ == utf8("-o"@)
            &&& command.args@[8]@ == utf8("jsonpath={.items[0].metadata.name}"@)
        },
{
    let args = request->Some_0->Run_0.args@;
    assert(byte_strings(args).len() == args.len());
    assert(byte_strings(args)[0] == args[0]@ && byte_strings(args)[1] == args[1]@);
    assert(byte_strings(args)[2] == args[2]@ && byte_strings(args)[3] == args[3]@);
    assert(byte_strings(args)[4] == args[4]@ && byte_strings(args)[5] == args[5]@);
    assert(byte_strings(args)[6] == args[6]@ && byte_strings(args)[7] == args[7]@);
    assert(byte_strings(args)[8] == args[8]@);
}

/// A tool whose path is set is found there at once; any other is located by its own name first.
pub proof fn law_tools_are_found_where_they_are_set(
    client: &CoverageClient,
    profdata: ToolSearch,
    cov: ToolSearch,
    profdata_request: Option<Request>,
    cov_request: Option<Request>,
)
    requires
        call_ensures(CoverageClient::find_llvm_profdata, (client,), profdata),
        call_ensures(CoverageClient::find_llvm_cov, (client,), cov),
        call_ensures(ToolSearch::request, (&profdata,), profdata_request),
        call_ensures(ToolSearch::request, (&cov,), cov_request),
    ensures
        client@.llvm_profdata_path matches Some(path) ==> (profdata.stage matches SearchStage::Done(
            Ok(found),
        ) && found.bytes@ == path),
        client@.llvm_cov_path matches Some(path) ==> (cov.stage matches SearchStage::Done(Ok(found))
            && found.bytes@ == path),
        client@.llvm_profdata_path is None ==> (profdata_request matches Some(Request::Locate(name))
            && name@ == "llvm-profdata"@),
        client@.llvm_cov_path is None ==> (cov_request matches Some(Request::Locate(name)) && name@
            == "llvm-cov"@),
{
}

/// A port is the number that the variable gives in decimal, or else the default.
pub proof fn law_choose_port_reads_the_variable(
    number: u16,
    default_port: u16,
    variable: Option<String>,
    port: u16,
)
    requires
        call_ensures(choose_port, (&variable, default_port), port),
    ensures
        variable is None ==> port == default_port,
        variable matches Some(text) && text@ == decimal(number as nat) ==> port == number,
{
    law_decimal_is_read_back(number);
}

/// A request for coverage is answered with the profile, in base64, and its size, under a name that
/// holds the process and the moment; an error is answered as it is, as a failure of the server.
pub proof fn law_handle_coverage_gives_the_profile(
    identity: &Identity,
    profile: Result<Vec<u8>, String>,
    nanos: Option<u128>,
    answer: Answer,
)
    requires
        call_ensures(handle_coverage, (identity, profile, nanos), answer),
    ensures
        profile matches Ok(data) ==> answer.status == 200 && (answer.body matches Body::Coverage(
            response,
        ) && {
            let stamp = nanosecond_stamp(nanos);
            &&& response.profraw_data@ == base64_encoded(data@)
            &&& response.profraw_size == data@.len()
            &&& response.timestamp == stamp
            &&& response.coverage_enabled
            &&& response.profraw_filename@ == "coverage."@ + decimal(identity.pid as nat) + "."@
                + decimal(stamp as nat) + ".profraw"@
        }),
        profile matches Err(error) ==> answer.status == 500 && (answer.body matches Body::Error(
            response,
        ) && response.error@ == error@),
{
    match profile {
        Ok(data) => law_coverage_answer_tells_of_the_profile(
            identity@,
            data@,
            Seq::empty(),
            nanos,
        ),
        Err(error) => law_coverage_answer_tells_of_the_profile(
            identity@,
            Seq::empty(),
            error@,
            nanos,
        ),
    }
}

/// Every answer of the server, of whichever function, has the fields of a coverage server of its
/// process.
pub proof fn law_every_answer_has_the_fields_of_the_server(
    identity: &Identity,
    profile: Result<Vec<u8>, String>,
    nanos: Option<u128>,
    coverage: Answer,
    reset: Answer,
    health: Answer,
)
    requires
        call_ensures(handle_coverage, (identity, profile, nanos), coverage),
        call_ensures(handle_reset_counters, (identity,), reset),
        call_ensures(handle_health, (identity,), health),
    ensures
        reset.status == 200 && (reset.body matches Body::Text(text) && text@
            == "Counters reset successfully"@),
        health.status == 200 && (health.body matches Body::Text(text) && text@
            == "coverage server healthy"@),
        header_fields(coverage.headers) == header_fields(health.headers),
        header_fields(reset.headers) == header_fields(health.headers),
        header_fields(health.headers).dom().contains("x-art-coverage-server"@),
        header_fields(health.headers)["x-art-coverage-server"@] == utf8("1"@),
        header_fields(health.headers).dom().contains("x-art-coverage-pid"@),
        header_fields(health.headers)["x-art-coverage-pid"@] == utf8(
            decimal(identity.pid as nat),
        ),
{
    law_fields_tell_server_process_and_binary(identity@);
}

/// A report whose `llvm-cov` has run with success is made, where it is of HTML; what was printed for
/// any other is written to its file.
pub proof fn law_report_writes_what_was_printed(
    report: Report,
    output: Output,
    ran: Report,
    request: Option<Request>,
)
    requires
        report.stage is Running,
        output.success,
        call_ensures(Report::resume, (report, Reply::Ran(output)), ran),
        call_ensures(Report::request, (&ran,), request),
    ensures
        report.kind is Html ==> request is None && (ran.stage matches ReportStage::Done(Ok(path))
            && path.bytes@ == report.target.bytes@),
        !(report.kind is Html) ==> (request matches Some(Request::WriteFile { path, contents })
            && path.bytes@ == report.target.bytes@ && contents@ == output.stdout@),
{
}

/// A report, a merge or a lookup whose program has failed fails with what the program said.
pub proof fn law_failure_says_what_the_program_said(
    output: Output,
    report: Report,
    failed_report: Report,
    merge: Merge,
    failed_merge: Merge,
    lookup: PodLookup,
    failed_lookup: PodLookup,
)
    requires
        !output.success,
        report.stage is Running,
        merge.stage is Running,
        lookup.stage is Asking,
        call_ensures(Report::resume, (report, Reply::Ran(output)), failed_report),
        call_ensures(Merge::resume, (merge, Reply::Ran(output)), failed_merge),
        call_ensures(PodLookup::resume, (lookup, Reply::Ran(output)), failed_lookup),
    ensures
        failed_report.stage matches ReportStage::Done(Err(CoverageError::LlvmCov(text))) && text@
            == match report.kind {
            ReportKind::Text => "llvm-cov report failed: "@,
            ReportKind::Html => "llvm-cov show --format=html failed: "@,
            ReportKind::Lcov => "llvm-cov export --format=lcov failed: "@,
        } + shown(output.stderr@),
        failed_merge.stage matches MergeStage::Done(Err(CoverageError::LlvmProfdata(text)))
            && text@ == "llvm-profdata merge failed: "@ + shown(output.stderr@),
        failed_lookup.stage matches LookupStage::Done(Err(CoverageError::Kubectl(text))) && text@
            == "kubectl get pods failed: "@ + shown(output.stderr@),
{
}

/// A merge whose `llvm-profdata` has run with success ends at `coverage.profdata` in its directory.
pub proof fn law_merge_ends_at_the_merged_file(merge: Merge, output: Output, ran: Merge)
    requires
        merge.stage is Running,
        output.success,
        call_ensures(Merge::resume, (merge, Reply::Ran(output)), ran),
    ensures
        ran.stage matches MergeStage::Done(Ok(path)) && path.bytes@ == joined(
            merge.dir.bytes@,
            utf8("coverage.profdata"@),
        ),
{
}

/// A lookup gives what `kubectl` printed, without the white space around it, and fails where nothing
/// else was printed.
pub proof fn law_lookup_gives_the_printed_name(lookup: PodLookup, output: Output, found: PodLookup)
    requires
        lookup.stage is Asking,
        output.success,
        call_ensures(PodLookup::resume, (lookup, Reply::Ran(output)), found),
    ensures
        trimmed(shown(output.stdout@)).len() > 0 ==> (found.stage matches LookupStage::Done(Ok(name))
            && name@ == trimmed(shown(output.stdout@))),
        trimmed(shown(output.stdout@)).len() == 0 ==> (found.stage matches LookupStage::Done(
            Err(CoverageError::Kubectl(text)),
        ) && text@ == "No running pod found with selector: "@ + lookup.selector@),
{
}

/// A file of a listing whose name has `.profraw` behind something is among the arguments of the
/// merge, where its tool is set.
pub proof fn law_merge_profdata_leaves_no_profile_out(
    client: &CoverageClient,
    test_name: &str,
    entries: Vec<Option<FilePath>>,
    at: int,
    stem: Seq<u8>,
    begun: Merge,
    listed: Merge,
    request: Option<Request>,
)
    requires
        client@.llvm_profdata_path is Some,
        0 <= at < entries@.len(),
        entries@[at] is Some,
        stem.len() > 0,
        entries@[at]->Some_0.bytes@ == stem + utf8(".profraw"@),
        call_ensures(CoverageClient::merge_profdata, (client, test_name), begun),
        call_ensures(Merge::resume, (begun, Reply::Entries(entries)), listed),
        call_ensures(Merge::request, (&listed,), request),
    ensures
        request matches Some(Request::Run(command)) && exists|i: int|
            0 <= i < command.args@.len() && (#[trigger] command.args@[i])@ == joined(
                joined(client@.output_dir, utf8(test_name@)),
                entries@[at]->Some_0.bytes@,
            ),
{
    let views = entries_view(entries@);
    assert(views[at] == Some(stem + utf8(".profraw"@)));
    assert(views.contains(Some(stem + utf8(".profraw"@))));
    law_no_profile_is_left_out(
        client@,
        test_name@,
        client@.llvm_profdata_path->Some_0,
        views,
        stem,
    );
    let args = request->Some_0->Run_0.args@;
    let path = joined(
        joined(client@.output_dir, utf8(test_name@)),
        stem + utf8(".profraw"@),
    );
    let i = byte_strings(args).index_of(path);
    assert(byte_strings(args)[i] == args[i]@);
}

/// The answer of a server that runs with coverage is written as its base64 decodes, under the name
/// that it gives, in the directory of the test. Without coverage nothing is written.
pub proof fn law_collection_writes_the_answer(
    collection: UrlCollection,
    response: CoverageResponse,
    read: UrlCollection,
    request: Option<Request>,
)
    requires
        collection.stage is Reading,
        call_ensures(UrlCollection::resume, (collection, Reply::Coverage(response)), read),
        call_ensures(UrlCollection::request, (&read,), request),
    ensures
        !response.coverage_enabled ==> request is None && (read.stage matches CollectStage::Done(
            Err(CoverageError::CoverageNotEnabled),
        )),
        response.coverage_enabled ==> match base64_decoded(response.profraw_data@) {
            Ok(data) => request matches Some(Request::WriteFile { path, contents }) && contents@
                == data && path.bytes@ == joined(
                collection.dir.bytes@,
                utf8(response.profraw_filename@),
            ),
            Err(error) => request is None && (read.stage matches CollectStage::Done(
                Err(CoverageError::Base64(reason)),
            ) && reason == error),
        },
{
}

/// What is recorded of a collection from a pod is what it was begun with, and the moment.
pub proof fn law_collection_is_recorded_as_it_was_begun(
    collection: PodCollection,
    seconds: u64,
    dated: PodCollection,
    request: Option<Request>,
)
    requires
        collection.stage is Dating,
        call_ensures(PodCollection::resume, (collection, Reply::Clock(Some(seconds))), dated),
        call_ensures(PodCollection::request, (&dated,), request),
    ensures
        request matches Some(Request::WriteMetadata { path, metadata }) && {
            &&& path.bytes@ == joined(collection.dir.bytes@, utf8("metadata.json"@))
            &&& metadata.pod_name@ == collection.pod_name@
            &&& metadata.namespace@ == collection.namespace@
            &&& metadata.test_name@ == collection.test_name@
            &&& metadata.container is None
            &&& metadata.timestamp@ == decimal(seconds as nat) + "s"@
            &&& collection.binary is None ==> metadata.binary_path is None
            &&& collection.binary matches Some(binary) ==> (metadata.binary_path matches Some(path)
                && path@ == binary@)
        },
{
}

/// A collection from a pod is begun with what it is given, and with the binary of the client as it
/// is shown.
pub proof fn law_collection_is_begun_with_what_is_given(
    client: &CoverageClient,
    pod_name: &str,
    test_name: &str,
    target_port: u16,
    begun: PodCollection,
)
    requires
        call_ensures(
            CoverageClient::collect_from_pod,
            (client, pod_name, test_name, target_port),
            begun,
        ),
    ensures
        begun.pod_name@ == pod_name@,
        begun.test_name@ == test_name@,
        begun.namespace@ == client@.namespace,
        begun.target_port == target_port,
        begun.dir.bytes@ == joined(client@.output_dir, utf8(test_name@)),
        client@.binary_path is None ==> begun.binary is None,
        client@.binary_path matches Some(path) ==> (begun.binary matches Some(text) && text@
            == shown(path)),
{
}

/// A summary prints the name of the test and the whole report.
pub proof fn law_summary_prints_name_and_report(
    summary: Summary,
    report: String,
    read: Summary,
    request: Option<Request>,
)
    requires
        summary.stage is Reading,
        call_ensures(Summary::resume, (summary, Reply::Text(report)), read),
        call_ensures(Summary::request, (&read,), request),
    ensures
        request matches Some(Request::Print(text)) && text@ == "=== Coverage Summary for '"@
            + summary.test_name@ + "' ===\n"@ + report@ + "\n"@,
{
}

/// A server that refuses is quoted, with its status and the body of its answer.
pub proof fn law_refusal_quotes_the_server(line: &str, body: Option<String>, error: CoverageError)
    requires
        call_ensures(refused, (line, body), error),
    ensures
        error matches CoverageError::Other(text) && match body {
            Some(body) => text@ == "Coverage server returned "@ + line@ + ": "@ + body@,
            None => text@ == "Coverage server returned "@ + line@ + ": "@,
        },
{
    let quoted = "Coverage server returned "@ + line@ + ": "@;
    assert(quoted + Seq::<char>::empty() =~= quoted);
}

/// Data that was decoded goes to the file of its name, in the directory, as it is; data that could
/// not be decoded is an error.
pub proof fn law_decoded_data_goes_to_its_file(
    dir: &FilePath,
    filename: &str,
    decoded: Result<Vec<u8>, Base64Error>,
    stage: CollectStage,
)
    requires
        call_ensures(store_profile, (dir, filename, decoded), stage),
    ensures
        decoded matches Ok(data) ==> (stage matches CollectStage::Saving { path, contents }
            && contents@ == data@ && path.bytes@ == joined(dir.bytes@, utf8(filename@))),
        decoded matches Err(error) ==> (stage matches CollectStage::Done(
            Err(CoverageError::Base64(reason)),
        ) && reason == error),
{
}

/// An answer with profile data holds that data as it is encoded, its size, and the process and the
/// moment in the name of its file.
pub proof fn law_response_holds_what_it_is_made_of(
    encoded: String,
    size: usize,
    pid: u32,
    moment: u64,
    response: ServedResponse,
)
    requires
        call_ensures(coverage_response, (encoded, size, pid, Some(moment as u128)), response),
    ensures
        response.profraw_data@ == encoded@,
        response.profraw_size == size,
        response.timestamp == moment,
        response.coverage_enabled,
        response.profraw_filename@ == "coverage."@ + decimal(pid as nat) + "."@ + decimal(
            moment as nat,
        ) + ".profraw"@,
{
    law_stamp_is_the_moment(moment, 0);
}

/// The fields that a server makes of its identity tell the process, the binary and the source that
/// it was built from, where they can be told.
pub proof fn law_headers_tell_the_identity(identity: &Identity, headers: HeaderMap<HeaderValue>)
    requires
        call_ensures(coverport_headers, (identity,), headers),
    ensures
        ({
            let fields = header_fields(headers);
            &&& fields["x-art-coverage-server"@] == utf8("1"@)
            &&& fields["x-art-coverage-pid"@] == utf8(decimal(identity.pid as nat))
            &&& identity.binary matches Some(path) ==> (is_field_value(shown(path.bytes@))
                ==> fields["x-art-coverage-binary"@] == utf8(shown(path.bytes@)))
            &&& identity.source_commit matches Some(commit) ==> (is_field_value(commit@)
                ==> fields["x-art-coverage-source-commit"@] == utf8(commit@))
            &&& identity.source_url matches Some(url) ==> (is_field_value(url@)
                ==> fields["x-art-coverage-source-url"@] == utf8(url@))
        }),
{
    law_fields_tell_server_process_and_binary(identity@);
    law_fields_tell_the_source_that_is_known(identity@, Seq::empty());
}

/// The processing asks for exactly what its part at hand asks for.
pub proof fn law_processing_asks_as_its_part(
    processing: Processing,
    asked: Option<Request>,
    merge_asks: Option<Request>,
    report_asks: Option<Request>,
)
    requires
        call_ensures(Processing::request, (&processing,), asked),
        processing matches Processing::Merging { merge, .. } ==> call_ensures(
            Merge::request,
            (&merge,),
            merge_asks,
        ),
        processing matches Processing::Reporting { current, .. } ==> call_ensures(
            Report::request,
            (&current,),
            report_asks,
        ),
    ensures
        processing is Merging ==> request_or_none(asked) == request_or_none(merge_asks),
        processing is Reporting ==> request_or_none(asked) == request_or_none(report_asks),
        processing is Done ==> asked is None,
{
}

/// An operation that is over asks for nothing, and no reply changes what came of it.
pub proof fn law_what_is_over_stays_as_it_is(
    reply: Reply,
    search: ToolSearch,
    search_after: ToolSearch,
    collection: UrlCollection,
    collection_after: UrlCollection,
    pod: PodCollection,
    pod_after: PodCollection,
    merge: Merge,
    merge_after: Merge,
    report: Report,
    report_after: Report,
    processing: Processing,
    processing_after: Processing,
)
    requires
        search.stage is Done,
        collection.stage is Done,
        pod.stage is Done,
        merge.stage is Done,
        report.stage is Done,
        processing is Done,
        call_ensures(ToolSearch::resume, (search, reply), search_after),
        call_ensures(UrlCollection::resume, (collection, reply), collection_after),
        call_ensures(PodCollection::resume, (pod, reply), pod_after),
        call_ensures(Merge::resume, (merge, reply), merge_after),
        call_ensures(Report::resume, (report, reply), report_after),
        call_ensures(Processing::resume, (processing, reply), processing_after),
    ensures
        search_after@ == search@,
        collection_after@ == collection@,
        pod_after@ == pod@,
        merge_after@ == merge@,
        report_after@ == report@,
        processing_after@ == processing@,
{
}

/// A search that misses the tool by its own name goes on to its newest version, and one that is told
/// where it is ends there.
pub proof fn law_search_goes_on_to_the_newest_version(
    tool: &str,
    path: FilePath,
    begun: ToolSearch,
    missed: ToolSearch,
    asked: Option<Request>,
    found: ToolSearch,
)
    requires
        call_ensures(find_llvm_tool, (tool,), begun),
        call_ensures(ToolSearch::resume, (begun, Reply::Located(None)), missed),
        call_ensures(ToolSearch::request, (&missed,), asked),
        call_ensures(ToolSearch::resume, (missed, Reply::Located(Some(path))), found),
    ensures
        asked matches Some(Request::Locate(name)) && name@ == tool@ + "-20"@,
        found.stage matches SearchStage::Done(Ok(place)) && place.bytes@ == path.bytes@,
{
    reveal_strlit("-20");
    reveal_strlit("-");
    reveal_with_fuel(decimal, 3);
    assert(tool@ + "-"@ + decimal(20) =~= tool@ + "-20"@);
}

/// The collection of a pod ends the forwarding once its server has been asked, whatever came of it,
/// and gives back what came of it.
pub proof fn law_pod_collection_gives_what_came_of_it(
    pod: PodCollection,
    error: CoverageError,
    asked: Option<Request>,
    stopped: PodCollection,
)
    requires
        pod.stage == PodStage::Stopping(Err(error)),
        call_ensures(PodCollection::request, (&pod,), asked),
        call_ensures(PodCollection::resume, (pod, Reply::Done), stopped),
    ensures
        asked == Some(Request::Stop),
        stopped.stage matches PodStage::Done(Err(reason)) && reason@ == error@,
{
}

} // verus!
