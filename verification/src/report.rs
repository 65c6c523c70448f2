//! The reports that `llvm-cov` makes of merged profile data.

use crate::client::{test_dir, tool_lookup, ClientView, CoverageClient};
use crate::collect::metadata_path;
use crate::error::{CoverageError, ErrorView};
use crate::path::{copy_bytes, joined, FilePath, SEPARATOR};
use crate::request::{
    answers, byte_strings, copy_byte_strings, less, path_outcome, push_path, push_text,
    request_or_none, CommandLine, CommandView, Left, OutputView, Reply, ReplyView, Request,
    RequestView,
};
use crate::text::{concat_texts, show_bytes, shown, utf8};
use crate::tool_search::{
    law_search_goes_on, search_after, search_left, search_request, search_start, SearchStage,
    SearchStageView, SearchView, ToolSearch,
};
use vstd::prelude::*;
use vstd::string::*;
use vstd::utf8::{is_ascii_chars, is_ascii_chars_encode_utf8};

verus! {

/// The merged profile data in the directory of a test.
pub open spec fn profdata_path(dir: Seq<u8>) -> Seq<u8> {
    joined(dir, utf8("coverage.profdata"@))
}

/// A kind of report.
#[derive(Clone, Copy, Debug, PartialEq, Eq)]
pub enum ReportKind {
    /// A table of the files, as text.
    Text,
    /// Pages with the source, as HTML.
    Html,
    /// A trace in the format of `lcov`.
    Lcov,
}

/// How far a report has come.
#[derive(Debug, PartialEq, Eq)]
pub enum ReportStage {
    /// `llvm-cov` is searched for.
    Searching(ToolSearch),
    /// This `llvm-cov` runs.
    Running(FilePath),
    /// The report is written to its file.
    Saving(Vec<u8>),
    /// The report is made, or has failed.
    Done(Result<FilePath, CoverageError>),
}

/// The model of a [`ReportStage`].
#[verifier::ext_equal]
pub enum ReportStageView {
    Searching(SearchView),
    Running(Seq<u8>),
    Saving(Seq<u8>),
    Done(Result<Seq<u8>, ErrorView>),
}

impl View for ReportStage {
    type V = ReportStageView;

    open spec fn view(&self) -> ReportStageView {
        match *self {
            ReportStage::Searching(search) => ReportStageView::Searching(search@),
            ReportStage::Running(tool) => ReportStageView::Running(tool@),
            ReportStage::Saving(contents) => ReportStageView::Saving(contents@),
            ReportStage::Done(outcome) => ReportStageView::Done(path_outcome(outcome)),
        }
    }
}

/// A report in the making.
#[derive(Debug, PartialEq, Eq)]
pub struct Report {
    pub kind: ReportKind,
    /// The arguments for `llvm-cov`.
    pub args: Vec<Vec<u8>>,
    /// Where the report goes.
    pub target: FilePath,
    pub stage: ReportStage,
}

/// The model of a [`Report`].
#[verifier::ext_equal]
pub struct ReportView {
    pub kind: ReportKind,
    pub args: Seq<Seq<u8>>,
    pub target: Seq<u8>,
    pub stage: ReportStageView,
}

impl View for Report {
    type V = ReportView;

    open spec fn view(&self) -> ReportView {
        ReportView {
            kind: self.kind,
            args: byte_strings(self.args@),
            target: self.target@,
            stage: self.stage@,
        }
    }
}

/// Where a report goes, in the directory of its test.
pub open spec fn report_target(kind: ReportKind, dir: Seq<u8>) -> Seq<u8> {
    match kind {
        ReportKind::Text => joined(dir, utf8("coverage.txt"@)),
        ReportKind::Html => joined(dir, utf8("html"@)),
        ReportKind::Lcov => joined(dir, utf8("lcov.info"@)),
    }
}

/// The subcommand of `llvm-cov` for a kind of report, and its format.
pub open spec fn report_command(kind: ReportKind) -> Seq<Seq<u8>> {
    match kind {
        ReportKind::Text => seq![utf8("report"@), utf8("--use-color=false"@)],
        ReportKind::Html => seq![utf8("show"@), utf8("--format=html"@)],
        ReportKind::Lcov => seq![utf8("export"@), utf8("--format=lcov"@)],
    }
}

/// The argument that names the directory of an HTML report; the other kinds have none.
pub open spec fn output_dir_option(kind: ReportKind, dir: Seq<u8>) -> Seq<Seq<u8>> {
    match kind {
        ReportKind::Html => seq![utf8("--output-dir="@ + shown(report_target(kind, dir)))],
        _ => Seq::empty(),
    }
}

/// The argument that names the source directory, where one is set.
pub open spec fn source_dir_option(client: ClientView) -> Seq<Seq<u8>> {
    match client.source_dir {
        Some(path) => seq![utf8("--source-dir="@ + shown(path))],
        None => Seq::empty(),
    }
}

/// The argument that leaves out the files that a pattern matches.
pub open spec fn filter_option(pattern: Seq<char>) -> Seq<u8> {
    utf8("--ignore-filename-regex="@ + pattern)
}

/// The arguments that leave out what the filters match.
pub open spec fn filter_options(filters: Seq<Seq<char>>) -> Seq<Seq<u8>> {
    Seq::new(filters.len(), |i: int| filter_option(filters[i]))
}

/// The arguments for `llvm-cov`: subcommand and format, profile data, the directory of an HTML
/// report, the binary, then source directory and filters.
pub open spec fn report_args(
    client: ClientView,
    kind: ReportKind,
    dir: Seq<u8>,
    binary: Seq<u8>,
) -> Seq<Seq<u8>> {
    report_command(kind) + seq![utf8("--instr-profile="@ + shown(profdata_path(dir)))]
        + output_dir_option(kind, dir) + seq![binary] + source_dir_option(client) + filter_options(
        client.filters,
    )
}

/// The error where no binary is set.
pub open spec fn binary_required(kind: ReportKind) -> ErrorView {
    ErrorView::Other(
        match kind {
            ReportKind::Text =>
                "Binary path required for llvm-cov report. Call set_binary_path() first."@,
            _ => "Binary path required for llvm-cov. Call set_binary_path() first."@,
        },
    )
}

/// What stands before the output of a failed `llvm-cov`.
pub open spec fn report_failure(kind: ReportKind) -> Seq<char> {
    match kind {
        ReportKind::Text => "llvm-cov report failed: "@,
        ReportKind::Html => "llvm-cov show --format=html failed: "@,
        ReportKind::Lcov => "llvm-cov export --format=lcov failed: "@,
    }
}

/// The stage that a search for `llvm-cov` leads to.
pub open spec fn report_stage_from(search: SearchView) -> ReportStageView {
    match search.stage {
        SearchStageView::Done(Ok(tool)) => ReportStageView::Running(tool),
        SearchStageView::Done(Err(error)) => ReportStageView::Done(Err(error)),
        _ => ReportStageView::Searching(search),
    }
}

/// A report that has just begun: it has failed where no binary is set.
pub open spec fn report_start(client: ClientView, kind: ReportKind, test_name: Seq<char>) -> ReportView {
    let dir = test_dir(client, test_name);
    match client.binary_path {
        Some(binary) => ReportView {
            kind,
            args: report_args(client, kind, dir, binary),
            target: report_target(kind, dir),
            stage: report_stage_from(tool_lookup("llvm-cov"@, client.llvm_cov_path)),
        },
        None => ReportView {
            kind,
            args: Seq::empty(),
            target: report_target(kind, dir),
            stage: ReportStageView::Done(Err(binary_required(kind))),
        },
    }
}

/// What a report asks for next, until it is made or has failed.
pub open spec fn report_request(report: ReportView) -> Option<RequestView> {
    match report.stage {
        ReportStageView::Searching(search) => search_request(search),
        ReportStageView::Running(tool) => Some(
            RequestView::Run(CommandView { program: tool, args: report.args }),
        ),
        ReportStageView::Saving(contents) => Some(
            RequestView::WriteFile { path: report.target, contents },
        ),
        ReportStageView::Done(_) => None,
    }
}

/// The stage of a report after a reply. A reply of another kind than the request calls for
/// changes nothing.
pub open spec fn report_stage_after(report: ReportView, reply: ReplyView) -> ReportStageView {
    match (report.stage, reply) {
        (ReportStageView::Searching(search), reply) => report_stage_from(
            search_after(search, reply),
        ),
        (ReportStageView::Running(_), ReplyView::Failed(reason)) => ReportStageView::Done(
            Err(ErrorView::Io(reason)),
        ),
        (
            ReportStageView::Running(_),
            ReplyView::Ran(output),
        ) => if !output.success {
            ReportStageView::Done(
                Err(ErrorView::LlvmCov(report_failure(report.kind) + shown(output.stderr))),
            )
        } else if report.kind == ReportKind::Html {
            ReportStageView::Done(Ok(report.target))
        } else {
            ReportStageView::Saving(output.stdout)
        },
        (ReportStageView::Saving(_), ReplyView::Done) => ReportStageView::Done(Ok(report.target)),
        (ReportStageView::Saving(_), ReplyView::Failed(reason)) => ReportStageView::Done(
            Err(ErrorView::Io(reason)),
        ),
        (stage, _) => stage,
    }
}

/// A report after a reply.
pub open spec fn report_after(report: ReportView, reply: ReplyView) -> ReportView {
    ReportView { stage: report_stage_after(report, reply), ..report }
}

/// The stage that a search for `llvm-cov` leads to.
fn stage_from(search: ToolSearch) -> (r: ReportStage)
    ensures
        r@ == report_stage_from(search@),
{
    match search.stage {
        SearchStage::Done(Ok(tool)) => ReportStage::Running(tool),
        SearchStage::Done(Err(error)) => ReportStage::Done(Err(error)),
        stage => ReportStage::Searching(ToolSearch { name: search.name, stage }),
    }
}

/// Where a report goes.
fn target_path(kind: ReportKind, dir: &FilePath) -> (r: FilePath)
    ensures
        r@ == report_target(kind, dir@),
{
    match kind {
        ReportKind::Text => dir.join_text("coverage.txt"),
        ReportKind::Html => dir.join_text("html"),
        ReportKind::Lcov => dir.join_text("lcov.info"),
    }
}

impl CoverageClient {
    /// The arguments for `llvm-cov`.
    fn args_for(&self, kind: ReportKind, dir: &FilePath, binary: &FilePath) -> (r: Vec<Vec<u8>>)
        ensures
            byte_strings(r@) == report_args(self@, kind, dir@, binary@),
    {
        let mut args: Vec<Vec<u8>> = Vec::new();
        match kind {
            ReportKind::Text => {
                push_text(&mut args, "report");
                push_text(&mut args, "--use-color=false");
            },
            ReportKind::Html => {
                push_text(&mut args, "show");
                push_text(&mut args, "--format=html");
            },
            ReportKind::Lcov => {
                push_text(&mut args, "export");
                push_text(&mut args, "--format=lcov");
            },
        }
        let profdata = dir.join_text("coverage.profdata");
        push_text(
            &mut args,
            concat_texts("--instr-profile=", profdata.display().as_str()).as_str(),
        );
        match kind {
            ReportKind::Html => {
                push_text(
                    &mut args,
                    concat_texts(
                        "--output-dir=",
                        target_path(kind, dir).display().as_str(),
                    ).as_str(),
                );
            },
            _ => {},
        }
        push_path(&mut args, binary);
        match &self.source_dir {
            Some(path) => {
                push_text(
                    &mut args,
                    concat_texts("--source-dir=", path.display().as_str()).as_str(),
                );
            },
            None => {},
        }
        let ghost head = byte_strings(args@);
        proof {
            assert(head =~= report_command(kind) + seq![
                utf8("--instr-profile="@ + shown(profdata_path(dir@))),
            ] + output_dir_option(kind, dir@) + seq![binary@] + source_dir_option(self@));
        }
        let mut i: usize = 0;
        proof {
            assert(head =~= head + filter_options(self@.filters).take(0));
        }
        while i < self.filters.len()
            invariant
                i <= self.filters@.len(),
                byte_strings(args@) == head + filter_options(self@.filters).take(i as int),
            decreases self.filters@.len() - i,
        {
            push_text(
                &mut args,
                concat_texts("--ignore-filename-regex=", self.filters[i].as_str()).as_str(),
            );
            proof {
                let all = filter_options(self@.filters);
                assert(all[i as int] == filter_option(self.filters@[i as int]@));
                assert((head + all.take(i as int)).push(all[i as int]) =~= head + all.take(i + 1));
            }
            i = i + 1;
        }
        proof {
            let all = filter_options(self@.filters);
            assert(all.take(i as int) =~= all);
        }
        args
    }

    /// Begins a report of one kind.
    fn begin_report(&self, kind: ReportKind, test_name: &str) -> (r: Report)
        ensures
            r@ == report_start(self@, kind, test_name@),
    {
        let dir = self.dir_of(test_name);
        let target = target_path(kind, &dir);
        match &self.binary_path {
            Some(binary) => Report {
                kind,
                args: self.args_for(kind, &dir, binary),
                target,
                stage: stage_from(self.find_llvm_cov()),
            },
            None => {
                let args: Vec<Vec<u8>> = Vec::new();
                proof {
                    assert(byte_strings(args@) =~= Seq::empty());
                }
                let text = match kind {
                    ReportKind::Text =>
                        "Binary path required for llvm-cov report. Call set_binary_path() first.",
                    _ => "Binary path required for llvm-cov. Call set_binary_path() first.",
                };
                Report {
                    kind,
                    args,
                    target,
                    stage: ReportStage::Done(Err(CoverageError::Other(text.to_owned()))),
                }
            },
        }
    }

    /// Begins a text report: a summary table, to be written to `coverage.txt`.
    pub fn generate_text_report(&self, test_name: &str) -> (r: Report)
        ensures
            r@ == report_start(self@, ReportKind::Text, test_name@),
    {
        self.begin_report(ReportKind::Text, test_name)
    }

    /// Begins an HTML report: pages in the directory `html`.
    pub fn generate_html_report(&self, test_name: &str) -> (r: Report)
        ensures
            r@ == report_start(self@, ReportKind::Html, test_name@),
    {
        self.begin_report(ReportKind::Html, test_name)
    }

    /// Begins a report in the format of `lcov`, to be written to `lcov.info`.
    pub fn generate_lcov_report(&self, test_name: &str) -> (r: Report)
        ensures
            r@ == report_start(self@, ReportKind::Lcov, test_name@),
    {
        self.begin_report(ReportKind::Lcov, test_name)
    }
}

impl Report {
    /// What is to be done next, until the report is made or has failed.
    pub fn request(&self) -> (r: Option<Request>)
        ensures
            request_or_none(r) == report_request(self@),
    {
        match &self.stage {
            ReportStage::Searching(search) => search.request(),
            ReportStage::Running(tool) => Some(
                Request::Run(
                    CommandLine { program: tool.copy(), args: copy_byte_strings(&self.args) },
                ),
            ),
            ReportStage::Saving(contents) => Some(
                Request::WriteFile { path: self.target.copy(), contents: copy_bytes(contents) },
            ),
            ReportStage::Done(_) => None,
        }
    }

    /// Goes on with what became of the request.
    pub fn resume(self, reply: Reply) -> (r: Report)
        ensures
            r@ == report_after(self@, reply@),
    {
        let Report { kind, args, target, stage } = self;
        let next = match (stage, reply) {
            (ReportStage::Searching(search), reply) => stage_from(search.resume(reply)),
            (ReportStage::Running(_), Reply::Failed(reason)) => ReportStage::Done(
                Err(CoverageError::Io(reason)),
            ),
            (ReportStage::Running(_), Reply::Ran(output)) => {
                if !output.success {
                    let failure = match kind {
                        ReportKind::Text => "llvm-cov report failed: ",
                        ReportKind::Html => "llvm-cov show --format=html failed: ",
                        ReportKind::Lcov => "llvm-cov export --format=lcov failed: ",
                    };
                    ReportStage::Done(
                        Err(
                            CoverageError::LlvmCov(
                                concat_texts(failure, show_bytes(&output.stderr).as_str()),
                            ),
                        ),
                    )
                } else {
                    match kind {
                        ReportKind::Html => ReportStage::Done(Ok(target.copy())),
                        _ => ReportStage::Saving(output.stdout),
                    }
                }
            },
            (ReportStage::Saving(_), Reply::Done) => ReportStage::Done(Ok(target.copy())),
            (ReportStage::Saving(_), Reply::Failed(reason)) => ReportStage::Done(
                Err(CoverageError::Io(reason)),
            ),
            (stage, _) => stage,
        };
        Report { kind, args, target, stage: next }
    }
}

/// Whether a report keeps no search that is over.
pub open spec fn report_in_order(report: ReportView) -> bool {
    match report.stage {
        ReportStageView::Searching(search) => !(search.stage is Done),
        _ => true,
    }
}

/// What is left to do of a report.
pub open spec fn report_left(report: ReportView) -> Left {
    match report.stage {
        ReportStageView::Searching(search) => Left { parts: 3, ..search_left(search) },
        ReportStageView::Running(_) => Left { parts: 2, stages: 0, items: 0 },
        ReportStageView::Saving(_) => Left { parts: 1, stages: 0, items: 0 },
        ReportStageView::Done(_) => Left { parts: 0, stages: 0, items: 0 },
    }
}

/// A report asks until it is over. A reply that its request may get takes it on, so that less
/// is left to do; any other changes nothing.
pub proof fn law_report_goes_on(report: ReportView, reply: ReplyView)
    requires
        report_in_order(report),
    ensures
        report_in_order(report_after(report, reply)),
        report_request(report) is None <==> report.stage is Done,
        report_request(report) is None ==> report_after(report, reply) == report,
        report_request(report) is Some && !answers(report_request(report)->Some_0, reply) ==> report_after(report, reply) == report,
        report_request(report) is Some && answers(report_request(report)->Some_0, reply) ==> less(
            report_left(report_after(report, reply)),
            report_left(report),
        ),
{
    match report.stage {
        ReportStageView::Searching(search) => {
            law_search_goes_on(search, reply);
        },
        _ => {},
    }
}

/// A report after replies, one after the other.
pub open spec fn report_run(report: ReportView, replies: Seq<ReplyView>) -> ReportView
    decreases replies.len(),
{
    if replies.len() == 0 {
        report
    } else {
        report_run(report_after(report, replies[0]), replies.skip(1))
    }
}

/// Whatever the replies, a report that is made ends at the path of its kind in the directory of
/// its test.
pub proof fn law_report_ends_at_its_target(
    client: ClientView,
    kind: ReportKind,
    test_name: Seq<char>,
    replies: Seq<ReplyView>,
)
    ensures
        match report_run(report_start(client, kind, test_name), replies).stage {
            ReportStageView::Done(Ok(path)) => path == report_target(
                kind,
                test_dir(client, test_name),
            ),
            _ => true,
        },
{
    lemma_report_target(report_start(client, kind, test_name), replies);
}

/// A report keeps its target, and ends nowhere else.
proof fn lemma_report_target(report: ReportView, replies: Seq<ReplyView>)
    requires
        report.stage matches ReportStageView::Done(Ok(path)) ==> path == report.target,
    ensures
        report_run(report, replies).stage matches ReportStageView::Done(Ok(path)) ==> path
            == report.target,
    decreases replies.len(),
{
    if replies.len() > 0 {
        lemma_report_target(report_after(report, replies[0]), replies.skip(1));
    }
}

/// Every report of a client whose binary is set leaves out what each of its filters matches.
pub proof fn law_reports_leave_out_what_filters_match(
    client: ClientView,
    kind: ReportKind,
    test_name: Seq<char>,
    pattern: Seq<char>,
)
    requires
        client.binary_path is Some,
        client.filters.contains(pattern),
    ensures
        report_start(client, kind, test_name).args.contains(filter_option(pattern)),
{
    let args = report_start(client, kind, test_name).args;
    let options = filter_options(client.filters);
    let i = choose|i: int| 0 <= i < client.filters.len() && client.filters[i] == pattern;
    assert(options[i] == filter_option(pattern));
    assert(args[args.len() - options.len() + i] == filter_option(pattern));
}

/// The path of a directory with this name behind it, and a separator between them unless the path
/// is empty or ends in one.
pub open spec fn file_in(dir: Seq<u8>, name: Seq<char>) -> Seq<u8> {
    if dir.len() == 0 || dir.last() == SEPARATOR {
        dir + utf8(name)
    } else {
        dir.push(SEPARATOR) + utf8(name)
    }
}

/// A name of ASCII characters that does not begin with a separator goes behind its directory.
proof fn lemma_file_in(dir: Seq<u8>, name: Seq<char>)
    requires
        is_ascii_chars(name),
        name.len() > 0,
        name[0] != '/',
    ensures
        joined(dir, utf8(name)) == file_in(dir, name),
{
    is_ascii_chars_encode_utf8(name);
}

/// What is made of a test stands in its directory: the merged profile data, the text report, the
/// lcov report, the directory of the HTML report and the record of the collection.
pub proof fn law_outputs_stand_in_test_directory(dir: Seq<u8>)
    ensures
        profdata_path(dir) == file_in(dir, "coverage.profdata"@),
        report_target(ReportKind::Text, dir) == file_in(dir, "coverage.txt"@),
        report_target(ReportKind::Lcov, dir) == file_in(dir, "lcov.info"@),
        report_target(ReportKind::Html, dir) == file_in(dir, "html"@),
        metadata_path(dir) == file_in(dir, "metadata.json"@),
{
    reveal_strlit("coverage.profdata");
    reveal_strlit("coverage.txt");
    reveal_strlit("lcov.info");
    reveal_strlit("html");
    reveal_strlit("metadata.json");
    lemma_file_in(dir, "coverage.profdata"@);
    lemma_file_in(dir, "coverage.txt"@);
    lemma_file_in(dir, "lcov.info"@);
    lemma_file_in(dir, "html"@);
    lemma_file_in(dir, "metadata.json"@);
}

/// A report asks `llvm-cov` for its own format of the profile data that the merge of the same test
/// ends in, of the binary that is set: subcommand, format and profile data come first.
pub proof fn law_report_names_format_and_profile(
    client: ClientView,
    kind: ReportKind,
    test_name: Seq<char>,
)
    requires
        client.binary_path is Some,
    ensures
        ({
            let args = report_start(client, kind, test_name).args;
            let profile = joined(test_dir(client, test_name), utf8("coverage.profdata"@));
            &&& args.len() > 3
            &&& kind is Text ==> args[0] == utf8("report"@) && args[1] == utf8("--use-color=false"@)
            &&& kind is Html ==> args[0] == utf8("show"@) && args[1] == utf8("--format=html"@)
            &&& kind is Lcov ==> args[0] == utf8("export"@) && args[1] == utf8("--format=lcov"@)
            &&& args[2] == utf8("--instr-profile="@ + shown(profile))
            &&& args.contains(client.binary_path->Some_0)
        }),
{
    let args = report_start(client, kind, test_name).args;
    assert(args[if kind is Html {
        4int
    } else {
        3
    }] == client.binary_path->Some_0);
}

/// An HTML report asks for its pages to go to the directory that it ends at, whatever else is set.
pub proof fn law_html_report_writes_where_it_ends(
    client: ClientView,
    test_name: Seq<char>,
    replies: Seq<ReplyView>,
)
    requires
        client.binary_path is Some,
        report_run(report_start(client, ReportKind::Html, test_name), replies).stage matches
            ReportStageView::Done(Ok(_)),
    ensures
        ({
            let report = report_start(client, ReportKind::Html, test_name);
            let end = report_run(report, replies).stage->Done_0->Ok_0;
            &&& end == joined(test_dir(client, test_name), utf8("html"@))
            &&& report.args[3] == utf8("--output-dir="@ + shown(end))
            &&& report.args[4] == client.binary_path->Some_0
        }),
{
    law_report_ends_at_its_target(client, ReportKind::Html, test_name, replies);
}

/// The arguments of a report are counted: four, one more of an HTML report, one more where a source
/// directory is set, and one for every filter. The binary stands before what is set, and the
/// filters stand last, in their order.
pub proof fn law_report_has_no_other_arguments(
    client: ClientView,
    kind: ReportKind,
    test_name: Seq<char>,
)
    requires
        client.binary_path is Some,
    ensures
        ({
            let args = report_start(client, kind, test_name).args;
            let fixed: int = if kind is Html {
                5
            } else {
                4
            };
            let source: int = if client.source_dir is Some {
                1
            } else {
                0
            };
            &&& args.len() == fixed + source + client.filters.len()
            &&& kind is Html ==> args[3] == utf8(
                "--output-dir="@ + shown(joined(test_dir(client, test_name), utf8("html"@))),
            )
            &&& args[fixed - 1] == client.binary_path->Some_0
            &&& client.source_dir matches Some(path) ==> args[fixed] == utf8(
                "--source-dir="@ + shown(path),
            )
            &&& forall|i: int|
                0 <= i < client.filters.len() ==> args[fixed + source + i] == utf8(
                    "--ignore-filename-regex="@ + #[trigger] client.filters[i],
                )
        }),
{
    let args = report_start(client, kind, test_name).args;
    let options = filter_options(client.filters);
    assert forall|i: int| 0 <= i < client.filters.len() implies args[args.len() - options.len() + i]
        == utf8("--ignore-filename-regex="@ + #[trigger] client.filters[i]) by {
        assert(options[i] == filter_option(client.filters[i]));
    }
}

/// Setting a source directory adds exactly one argument to a report, which names it, and changes
/// nothing else of the report.
pub proof fn law_source_dir_adds_one_argument(
    client: ClientView,
    kind: ReportKind,
    test_name: Seq<char>,
    path: Seq<u8>,
)
    requires
        client.binary_path is Some,
        client.source_dir is None,
    ensures
        ({
            let without = report_start(client, kind, test_name);
            let with = report_start(
                ClientView { source_dir: Some(path), ..client },
                kind,
                test_name,
            );
            exists|at: int| 0 <= at <= without.args.len() && with == (ReportView {
                args: #[trigger] without.args.insert(at, utf8("--source-dir="@ + shown(path))),
                ..without
            })
        }),
{
    let without = report_start(client, kind, test_name);
    let set = ClientView { source_dir: Some(path), ..client };
    let with = report_start(set, kind, test_name);
    let at: int = if kind is Html {
        5
    } else {
        4
    };
    assert(test_dir(set, test_name) == test_dir(client, test_name));
    assert(with.args =~= without.args.insert(at, utf8("--source-dir="@ + shown(path))));
}

/// Another filter adds one argument behind the others, and changes nothing else of a report.
pub proof fn law_filter_adds_one_argument(
    client: ClientView,
    kind: ReportKind,
    test_name: Seq<char>,
    pattern: Seq<char>,
)
    requires
        client.binary_path is Some,
    ensures
        ({
            let without = report_start(client, kind, test_name);
            let with = report_start(
                ClientView { filters: client.filters.push(pattern), ..client },
                kind,
                test_name,
            );
            with == (ReportView {
                args: without.args.push(utf8("--ignore-filename-regex="@ + pattern)),
                ..without
            })
        }),
{
    let without = report_start(client, kind, test_name);
    let more = ClientView { filters: client.filters.push(pattern), ..client };
    let with = report_start(more, kind, test_name);
    assert(filter_options(more.filters) =~= filter_options(client.filters).push(
        filter_option(pattern),
    ));
    assert(test_dir(more, test_name) == test_dir(client, test_name));
    assert(with.args =~= without.args.push(filter_option(pattern)));
}

/// A report needs a binary: without one it has failed from the start, and with one it is up to
/// `llvm-cov`, which is the one that is set, or else is searched for.
pub proof fn law_report_needs_a_binary(client: ClientView, kind: ReportKind, test_name: Seq<char>)
    ensures
        client.binary_path is None ==> report_start(client, kind, test_name).stage
            == ReportStageView::Done(
            Err(
                ErrorView::Other(
                    if kind is Text {
                        "Binary path required for llvm-cov report. Call set_binary_path() first."@
                    } else {
                        "Binary path required for llvm-cov. Call set_binary_path() first."@
                    },
                ),
            ),
        ),
        client.binary_path is Some ==> match client.llvm_cov_path {
            Some(tool) => report_request(report_start(client, kind, test_name)) == Some(
                RequestView::Run(
                    CommandView {
                        program: tool,
                        args: report_start(client, kind, test_name).args,
                    },
                ),
            ),
            None => report_start(client, kind, test_name).stage == ReportStageView::Searching(
                search_start("llvm-cov"@),
            ),
        },
{
}

/// A report goes for the same file with the same arguments throughout, and runs the `llvm-cov`
/// that a search for it has found. A search that fails is the failure of the report.
pub proof fn law_report_runs_what_was_found(report: ReportView, reply: ReplyView)
    ensures
        report_after(report, reply).kind == report.kind,
        report_after(report, reply).args == report.args,
        report_after(report, reply).target == report.target,
        report.stage matches ReportStageView::Searching(search) ==> {
            let after = report_after(report, reply);
            &&& report_request(report) == search_request(search)
            &&& match search_after(search, reply).stage {
                SearchStageView::Done(Ok(tool)) => report_request(after) == Some(
                    RequestView::Run(CommandView { program: tool, args: report.args }),
                ),
                SearchStageView::Done(Err(error)) => after.stage == ReportStageView::Done(
                    Err(error),
                ),
                _ => after.stage == ReportStageView::Searching(search_after(search, reply)),
            }
        },
{
}

/// What becomes of a report is up to `llvm-cov`. Where it succeeds, an HTML report is made, and what
/// it printed for any other is written, byte for byte, to the file of the report. Where it fails,
/// so does the report, with what it said.
pub proof fn law_report_takes_what_llvm_cov_printed(
    client: ClientView,
    kind: ReportKind,
    test_name: Seq<char>,
    tool: Seq<u8>,
    output: OutputView,
    reason: Seq<char>,
)
    ensures
        ({
            let running = ReportView {
                stage: ReportStageView::Running(tool),
                ..report_start(client, kind, test_name)
            };
            let dir = test_dir(client, test_name);
            let target = match kind {
                ReportKind::Text => joined(dir, utf8("coverage.txt"@)),
                ReportKind::Html => joined(dir, utf8("html"@)),
                ReportKind::Lcov => joined(dir, utf8("lcov.info"@)),
            };
            let ran = report_after(running, ReplyView::Ran(output));
            &&& report_after(running, ReplyView::Failed(reason)).stage == ReportStageView::Done(
                Err(ErrorView::Io(reason)),
            )
            &&& output.success && kind is Html ==> ran.stage == ReportStageView::Done(Ok(target))
            &&& output.success && !(kind is Html) ==> {
                &&& report_request(ran) == Some(
                    RequestView::WriteFile { path: target, contents: output.stdout },
                )
                &&& report_after(ran, ReplyView::Done).stage == ReportStageView::Done(Ok(target))
                &&& report_after(ran, ReplyView::Failed(reason)).stage == ReportStageView::Done(
                    Err(ErrorView::Io(reason)),
                )
            }
            &&& !output.success ==> ran.stage == ReportStageView::Done(
                Err(
                    ErrorView::LlvmCov(
                        match kind {
                            ReportKind::Text => "llvm-cov report failed: "@,
                            ReportKind::Html => "llvm-cov show --format=html failed: "@,
                            ReportKind::Lcov => "llvm-cov export --format=lcov failed: "@,
                        } + shown(output.stderr),
                    ),
                ),
            )
        }),
{
}

} // verus!
