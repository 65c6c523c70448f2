//! The summary of a test, and the reset of the counters.

use crate::client::{test_dir, ClientView, CoverageClient};
use crate::error::{CoverageError, ErrorView};
use crate::path::{joined, FilePath};
use crate::request::{
    answers, less, request_or_none, unit_outcome, Left, Reply, ReplyView, Request, RequestView,
};
use crate::status::is_success_code;
use crate::text::{concat_texts, concat_three, utf8};
use vstd::prelude::*;
use vstd::string::*;

verus! {

/// How far a summary has come.
#[derive(Debug, PartialEq, Eq)]
pub enum SummaryStage {
    /// The text report is looked for.
    Checking,
    /// The text report is read.
    Reading,
    /// This text is printed.
    Printing(String),
    /// The summary is printed, or there is none, or it has failed.
    Done(Result<(), CoverageError>),
}

/// The model of a [`SummaryStage`].
#[verifier::ext_equal]
pub enum SummaryStageView {
    Checking,
    Reading,
    Printing(Seq<char>),
    Done(Result<(), ErrorView>),
}

impl View for SummaryStage {
    type V = SummaryStageView;

    open spec fn view(&self) -> SummaryStageView {
        match *self {
            SummaryStage::Checking => SummaryStageView::Checking,
            SummaryStage::Reading => SummaryStageView::Reading,
            SummaryStage::Printing(text) => SummaryStageView::Printing(text@),
            SummaryStage::Done(outcome) => SummaryStageView::Done(unit_outcome(outcome)),
        }
    }
}

/// A summary of the coverage of a test.
#[derive(Debug, PartialEq, Eq)]
pub struct Summary {
    pub test_name: String,
    /// The text report.
    pub report: FilePath,
    pub stage: SummaryStage,
}

/// The model of a [`Summary`].
#[verifier::ext_equal]
pub struct SummaryView {
    pub test_name: Seq<char>,
    pub report: Seq<u8>,
    pub stage: SummaryStageView,
}

impl View for Summary {
    type V = SummaryView;

    open spec fn view(&self) -> SummaryView {
        SummaryView { test_name: self.test_name@, report: self.report@, stage: self.stage@ }
    }
}

/// A summary that has just begun.
pub open spec fn summary_start(client: ClientView, test_name: Seq<char>) -> SummaryView {
    SummaryView {
        test_name,
        report: joined(test_dir(client, test_name), utf8("coverage.txt"@)),
        stage: SummaryStageView::Checking,
    }
}

/// The text of a summary: a line that names the test, then the report and an end of line.
pub open spec fn summary_text(test_name: Seq<char>, report: Seq<char>) -> Seq<char> {
    "=== Coverage Summary for '"@ + test_name + "' ===\n"@ + report + "\n"@
}

/// What a summary asks for next, until it is over.
pub open spec fn summary_request(summary: SummaryView) -> Option<RequestView> {
    match summary.stage {
        SummaryStageView::Checking => Some(RequestView::Exists(summary.report)),
        SummaryStageView::Reading => Some(RequestView::ReadFile(summary.report)),
        SummaryStageView::Printing(text) => Some(RequestView::Print(text)),
        SummaryStageView::Done(_) => None,
    }
}

/// The stage of a summary after a reply. A reply of another kind than the request calls for
/// changes nothing.
pub open spec fn summary_stage_after(summary: SummaryView, reply: ReplyView) -> SummaryStageView {
    match (summary.stage, reply) {
        (SummaryStageView::Checking, ReplyView::Exists(there)) => if there {
            SummaryStageView::Reading
        } else {
            SummaryStageView::Done(Ok(()))
        },
        (SummaryStageView::Reading, ReplyView::Failed(reason)) => SummaryStageView::Done(
            Err(ErrorView::Io(reason)),
        ),
        (SummaryStageView::Reading, ReplyView::Text(report)) => SummaryStageView::Printing(
            summary_text(summary.test_name, report),
        ),
        (SummaryStageView::Printing(_), ReplyView::Done) => SummaryStageView::Done(Ok(())),
        (stage, _) => stage,
    }
}

/// A summary after a reply.
pub open spec fn summary_after(summary: SummaryView, reply: ReplyView) -> SummaryView {
    SummaryView { stage: summary_stage_after(summary, reply), ..summary }
}

/// How far a reset has come.
#[derive(Debug, PartialEq, Eq)]
pub enum ResetStage {
    /// The server is asked.
    Posting,
    /// The server has refused; the body of its answer is read.
    Refused,
    /// The counters are reset, or the reset has failed.
    Done(Result<(), CoverageError>),
}

/// The model of a [`ResetStage`].
#[verifier::ext_equal]
pub enum ResetStageView {
    Posting,
    Refused,
    Done(Result<(), ErrorView>),
}

impl View for ResetStage {
    type V = ResetStageView;

    open spec fn view(&self) -> ResetStageView {
        match *self {
            ResetStage::Posting => ResetStageView::Posting,
            ResetStage::Refused => ResetStageView::Refused,
            ResetStage::Done(outcome) => ResetStageView::Done(unit_outcome(outcome)),
        }
    }
}

/// A reset of the coverage counters of a server.
#[derive(Debug, PartialEq, Eq)]
pub struct Reset {
    /// The address that resets them.
    pub url: String,
    pub stage: ResetStage,
}

/// The model of a [`Reset`].
#[verifier::ext_equal]
pub struct ResetView {
    pub url: Seq<char>,
    pub stage: ResetStageView,
}

impl View for Reset {
    type V = ResetView;

    open spec fn view(&self) -> ResetView {
        ResetView { url: self.url@, stage: self.stage@ }
    }
}

/// The error where a server does not reset its counters.
pub open spec fn reset_refusal(body: Option<Seq<char>>) -> ErrorView {
    ErrorView::Other(
        "Failed to reset counters: "@ + match body {
            Some(text) => text,
            None => Seq::empty(),
        },
    )
}

/// A reset that has just begun.
pub open spec fn reset_start(url: Seq<char>) -> ResetView {
    ResetView { url, stage: ResetStageView::Posting }
}

/// What a reset asks for next, until it is over.
pub open spec fn reset_request(reset: ResetView) -> Option<RequestView> {
    match reset.stage {
        ResetStageView::Posting => Some(RequestView::Post { url: reset.url, test_name: None }),
        ResetStageView::Refused => Some(RequestView::ReadBody),
        ResetStageView::Done(_) => None,
    }
}

/// The stage of a reset after a reply. A reply of another kind than the request calls for
/// changes nothing.
pub open spec fn reset_stage_after(reset: ResetView, reply: ReplyView) -> ResetStageView {
    match (reset.stage, reply) {
        (ResetStageView::Posting, ReplyView::Failed(reason)) => ResetStageView::Done(
            Err(ErrorView::Http(reason)),
        ),
        (ResetStageView::Posting, ReplyView::Status(code)) => if is_success_code(code) {
            ResetStageView::Done(Ok(()))
        } else {
            ResetStageView::Refused
        },
        (ResetStageView::Refused, ReplyView::Body(body)) => ResetStageView::Done(
            Err(reset_refusal(body)),
        ),
        (stage, _) => stage,
    }
}

/// A reset after a reply.
pub open spec fn reset_after(reset: ResetView, reply: ReplyView) -> ResetView {
    ResetView { stage: reset_stage_after(reset, reply), ..reset }
}

impl CoverageClient {
    /// Begins to print the summary of a test, where it has a text report.
    pub fn print_summary(&self, test_name: &str) -> (r: Summary)
        ensures
            r@ == summary_start(self@, test_name@),
    {
        Summary {
            test_name: test_name.to_owned(),
            report: self.dir_of(test_name).join_text("coverage.txt"),
            stage: SummaryStage::Checking,
        }
    }

    /// Begins to reset the coverage counters of the server at `url`.
    pub fn reset_counters(&self, url: &str) -> (r: Reset)
        ensures
            r@ == reset_start(url@),
    {
        Reset { url: url.to_owned(), stage: ResetStage::Posting }
    }
}

impl Summary {
    /// What is to be done next, until the summary is over.
    pub fn request(&self) -> (r: Option<Request>)
        ensures
            request_or_none(r) == summary_request(self@),
    {
        match &self.stage {
            SummaryStage::Checking => Some(Request::Exists(self.report.copy())),
            SummaryStage::Reading => Some(Request::ReadFile(self.report.copy())),
            SummaryStage::Printing(text) => Some(Request::Print(text.clone())),
            SummaryStage::Done(_) => None,
        }
    }

    /// Goes on with what became of the request.
    pub fn resume(self, reply: Reply) -> (r: Summary)
        ensures
            r@ == summary_after(self@, reply@),
    {
        let Summary { test_name, report, stage } = self;
        let next = match (stage, reply) {
            (SummaryStage::Checking, Reply::Exists(there)) => {
                if there {
                    SummaryStage::Reading
                } else {
                    SummaryStage::Done(Ok(()))
                }
            },
            (SummaryStage::Reading, Reply::Failed(reason)) => SummaryStage::Done(
                Err(CoverageError::Io(reason)),
            ),
            (SummaryStage::Reading, Reply::Text(text)) => {
                let mut all = concat_three(
                    "=== Coverage Summary for '",
                    test_name.as_str(),
                    "' ===\n",
                );
                all.append(text.as_str());
                all.append("\n");
                SummaryStage::Printing(all)
            },
            (SummaryStage::Printing(_), Reply::Done) => SummaryStage::Done(Ok(())),
            (stage, _) => stage,
        };
        Summary { test_name, report, stage: next }
    }
}

impl Reset {
    /// What is to be done next, until the reset is over.
    pub fn request(&self) -> (r: Option<Request>)
        ensures
            request_or_none(r) == reset_request(self@),
    {
        match &self.stage {
            ResetStage::Posting => Some(Request::Post { url: self.url.clone(), test_name: None }),
            ResetStage::Refused => Some(Request::ReadBody),
            ResetStage::Done(_) => None,
        }
    }

    /// Goes on with what became of the request.
    pub fn resume(self, reply: Reply) -> (r: Reset)
        ensures
            r@ == reset_after(self@, reply@),
    {
        let Reset { url, stage } = self;
        let next = match (stage, reply) {
            (ResetStage::Posting, Reply::Failed(reason)) => ResetStage::Done(
                Err(CoverageError::Http(reason)),
            ),
            (ResetStage::Posting, Reply::Status(status)) => {
                if status.is_success() {
                    ResetStage::Done(Ok(()))
                } else {
                    ResetStage::Refused
                }
            },
            (ResetStage::Refused, Reply::Body(body)) => {
                let body = match body {
                    Some(body) => body,
                    None => String::new(),
                };
                ResetStage::Done(
                    Err(
                        CoverageError::Other(
                            concat_texts("Failed to reset counters: ", body.as_str()),
                        ),
                    ),
                )
            },
            (stage, _) => stage,
        };
        Reset { url, stage: next }
    }
}

/// What is left to do of a summary.
pub open spec fn summary_left(summary: SummaryView) -> Left {
    match summary.stage {
        SummaryStageView::Checking => Left { parts: 1, stages: 2, items: 0 },
        SummaryStageView::Reading => Left { parts: 1, stages: 1, items: 0 },
        SummaryStageView::Printing(_) => Left { parts: 1, stages: 0, items: 0 },
        SummaryStageView::Done(_) => Left { parts: 0, stages: 0, items: 0 },
    }
}

/// A summary asks until it is over. A reply that its request may get takes it on, so that less
/// is left to do; any other changes nothing.
pub proof fn law_summary_goes_on(summary: SummaryView, reply: ReplyView)
    ensures
        summary_request(summary) is None <==> summary.stage is Done,
        summary_request(summary) is None ==> summary_after(summary, reply) == summary,
        summary_request(summary) is Some && !answers(summary_request(summary)->Some_0, reply) ==> summary_after(summary, reply) == summary,
        summary_request(summary) is Some && answers(summary_request(summary)->Some_0, reply) ==> less(
            summary_left(summary_after(summary, reply)),
            summary_left(summary),
        ),
{
}

/// What is left to do of a reset.
pub open spec fn reset_left(reset: ResetView) -> Left {
    match reset.stage {
        ResetStageView::Posting => Left { parts: 1, stages: 1, items: 0 },
        ResetStageView::Refused => Left { parts: 1, stages: 0, items: 0 },
        ResetStageView::Done(_) => Left { parts: 0, stages: 0, items: 0 },
    }
}

/// A reset asks until it is over. A reply that its request may get takes it on, so that less
/// is left to do; any other changes nothing.
pub proof fn law_reset_goes_on(reset: ResetView, reply: ReplyView)
    ensures
        reset_request(reset) is None <==> reset.stage is Done,
        reset_request(reset) is None ==> reset_after(reset, reply) == reset,
        reset_request(reset) is Some && !answers(reset_request(reset)->Some_0, reply) ==> reset_after(reset, reply) == reset,
        reset_request(reset) is Some && answers(reset_request(reset)->Some_0, reply) ==> less(
            reset_left(reset_after(reset, reply)),
            reset_left(reset),
        ),
{
}

/// A summary is of the text report of its test, in the directory of the test. Where there is none,
/// nothing is read or printed, and that is no failure.
pub proof fn law_summary_needs_a_report(client: ClientView, test_name: Seq<char>)
    ensures
        ({
            let start = summary_start(client, test_name);
            let report = joined(
                joined(client.output_dir, utf8(test_name)),
                utf8("coverage.txt"@),
            );
            &&& summary_request(start) == Some(RequestView::Exists(report))
            &&& summary_after(start, ReplyView::Exists(false)).stage == SummaryStageView::Done(
                Ok(()),
            )
            &&& summary_request(summary_after(start, ReplyView::Exists(true))) == Some(
                RequestView::ReadFile(report),
            )
        }),
{
}

/// What a summary prints is a line that names the test, and then the whole of the report, with an
/// end of line behind each. A report that cannot be read is a failure.
pub proof fn law_summary_prints_the_report(
    client: ClientView,
    test_name: Seq<char>,
    report: Seq<char>,
    reason: Seq<char>,
)
    ensures
        ({
            let reading = summary_after(
                summary_start(client, test_name),
                ReplyView::Exists(true),
            );
            let read = summary_after(reading, ReplyView::Text(report));
            &&& summary_request(read) matches Some(RequestView::Print(text)) && {
                let head = "=== Coverage Summary for '"@ + test_name + "' ===\n"@;
                &&& text.len() == head.len() + report.len() + 1
                &&& text.take(head.len() as int) == head
                &&& text.subrange(head.len() as int, text.len() - 1) == report
                &&& text.last() == '\n'
            }
            &&& summary_after(read, ReplyView::Done).stage == SummaryStageView::Done(Ok(()))
            &&& summary_after(reading, ReplyView::Failed(reason)).stage == SummaryStageView::Done(
                Err(ErrorView::Io(reason)),
            )
        }),
{
    reveal_strlit("\n");
    let head = "=== Coverage Summary for '"@ + test_name + "' ===\n"@;
    let text = summary_text(test_name, report);
    assert(text.take(head.len() as int) =~= head);
    assert(text.subrange(head.len() as int, text.len() - 1) =~= report);
}

/// A reset posts to the address that it is given, with no body, and fails where that cannot be sent.
pub proof fn law_reset_posts_to_its_address(url: Seq<char>, reason: Seq<char>)
    ensures
        reset_request(reset_start(url)) == Some(RequestView::Post { url, test_name: None }),
        reset_after(reset_start(url), ReplyView::Failed(reason)).stage == ResetStageView::Done(
            Err(ErrorView::Http(reason)),
        ),
{
}

/// A reset that was posted ends well exactly where the server answers with a code from 200 up to,
/// and without, 300. After any other it asks for the body and fails, whatever the body is; the
/// error ends in that body.
pub proof fn law_reset_succeeds_with_the_server(
    url: Seq<char>,
    code: u16,
    body: Option<Seq<char>>,
)
    ensures
        ({
            let posted = reset_after(reset_start(url), ReplyView::Status(code));
            let read = reset_after(posted, ReplyView::Body(body));
            &&& posted.stage == ResetStageView::Done(Ok(())) <==> 200 <= code < 300
            &&& !(200 <= code < 300) ==> reset_request(posted) == Some(RequestView::ReadBody)
            &&& !(200 <= code < 300) ==> read.stage == ResetStageView::Done(
                Err(
                    ErrorView::Other(
                        match body {
                            Some(text) => "Failed to reset counters: "@ + text,
                            None => "Failed to reset counters: "@,
                        },
                    ),
                ),
            )
        }),
{
    assert("Failed to reset counters: "@ + Seq::<char>::empty() =~= "Failed to reset counters: "@);
}

/// A reset ends well after no reply but a status of success.
pub proof fn law_reset_succeeds_by_no_other_reply(reset: ResetView, reply: ReplyView)
    requires
        !(reset.stage is Done),
    ensures
        reset_after(reset, reply).url == reset.url,
        reset_after(reset, reply).stage == ResetStageView::Done(Ok(())) ==> (reply matches
            ReplyView::Status(code) && 200 <= code < 300),
{
}

} // verus!
