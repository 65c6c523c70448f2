//! The full processing of collected profile data: merge, then every report.

use crate::client::{ClientView, CoverageClient};
use crate::error::{CoverageError, ErrorView};
use crate::merge::{
    law_merge_goes_on, merge_after, merge_in_order, merge_left, merge_request, merge_run,
    merge_start, Merge, MergeStage, MergeStageView, MergeView,
};
use crate::path::joined;
use crate::report::{
    law_report_goes_on, report_after, report_in_order, report_left, report_request, report_run,
    report_start, Report, ReportKind, ReportStage, ReportStageView, ReportView,
};
use crate::request::{
    answers, less, request_or_none, unit_outcome, Left, Reply, ReplyView, Request, RequestView,
};
use crate::text::utf8;
use vstd::prelude::*;
use vstd::string::*;

verus! {

/// The views of a list of reports.
pub open spec fn report_views(list: Seq<Report>) -> Seq<ReportView> {
    Seq::new(list.len(), |i: int| list[i]@)
}

/// How far the processing has come.
#[derive(Debug, PartialEq, Eq)]
pub enum Processing {
    /// The raw profile data is merged; these reports are to follow.
    Merging { merge: Merge, reports: Vec<Report> },
    /// A report is made, and the rest are to follow.
    Reporting { current: Report, rest: Vec<Report> },
    /// Everything is made, or something has failed.
    Done(Result<(), CoverageError>),
}

/// The model of a [`Processing`].
#[verifier::ext_equal]
pub enum ProcessingView {
    Merging { merge: MergeView, reports: Seq<ReportView> },
    Reporting { current: ReportView, rest: Seq<ReportView> },
    Done(Result<(), ErrorView>),
}

impl View for Processing {
    type V = ProcessingView;

    open spec fn view(&self) -> ProcessingView {
        match *self {
            Processing::Merging { merge, reports } => ProcessingView::Merging {
                merge: merge@,
                reports: report_views(reports@),
            },
            Processing::Reporting { current, rest } => ProcessingView::Reporting {
                current: current@,
                rest: report_views(rest@),
            },
            Processing::Done(outcome) => ProcessingView::Done(unit_outcome(outcome)),
        }
    }
}

/// The reports of a test, in the order in which they are made.
pub open spec fn all_reports(client: ClientView, test_name: Seq<char>) -> Seq<ReportView> {
    seq![
        report_start(client, ReportKind::Text, test_name),
        report_start(client, ReportKind::Html, test_name),
        report_start(client, ReportKind::Lcov, test_name),
    ]
}

/// Processing that has just begun.
pub open spec fn processing_start(client: ClientView, test_name: Seq<char>) -> ProcessingView {
    ProcessingView::Merging {
        merge: merge_start(client, test_name),
        reports: all_reports(client, test_name),
    }
}

/// Processing that has these reports before it: one that has failed ends it, and one that is
/// made is passed over.
pub open spec fn reporting(reports: Seq<ReportView>) -> ProcessingView
    decreases reports.len(),
{
    if reports.len() == 0 {
        ProcessingView::Done(Ok(()))
    } else {
        match reports[0].stage {
            ReportStageView::Done(Ok(_)) => reporting(reports.skip(1)),
            ReportStageView::Done(Err(error)) => ProcessingView::Done(Err(error)),
            _ => ProcessingView::Reporting { current: reports[0], rest: reports.skip(1) },
        }
    }
}

/// Processing with the merge as it is.
pub open spec fn merging(merge: MergeView, reports: Seq<ReportView>) -> ProcessingView {
    match merge.stage {
        MergeStageView::Done(Ok(_)) => reporting(reports),
        MergeStageView::Done(Err(error)) => ProcessingView::Done(Err(error)),
        _ => ProcessingView::Merging { merge, reports },
    }
}

/// What the processing asks for next, until it is over.
pub open spec fn processing_request(processing: ProcessingView) -> Option<RequestView> {
    match processing {
        ProcessingView::Merging { merge, .. } => merge_request(merge),
        ProcessingView::Reporting { current, .. } => report_request(current),
        ProcessingView::Done(_) => None,
    }
}

/// The processing after a reply.
pub open spec fn processing_after(processing: ProcessingView, reply: ReplyView) -> ProcessingView {
    match processing {
        ProcessingView::Merging { merge, reports } => merging(merge_after(merge, reply), reports),
        ProcessingView::Reporting { current, rest } => reporting(
            seq![report_after(current, reply)] + rest,
        ),
        ProcessingView::Done(outcome) => ProcessingView::Done(outcome),
    }
}

/// Processing that has these reports before it.
fn report_on(reports: Vec<Report>) -> (r: Processing)
    ensures
        r@ == reporting(report_views(reports@)),
    decreases reports@.len(),
{
    let mut rest = reports;
    if rest.len() == 0 {
        return Processing::Done(Ok(()));
    }
    let Report { kind, args, target, stage } = rest.remove(0);
    proof {
        assert(report_views(rest@) =~= report_views(reports@).skip(1));
    }
    match stage {
        ReportStage::Done(Ok(_)) => report_on(rest),
        ReportStage::Done(Err(error)) => Processing::Done(Err(error)),
        stage => Processing::Reporting { current: Report { kind, args, target, stage }, rest },
    }
}

/// Processing with the merge as it is.
fn merge_on(merge: Merge, reports: Vec<Report>) -> (r: Processing)
    ensures
        r@ == merging(merge@, report_views(reports@)),
{
    let Merge { dir, stage } = merge;
    match stage {
        MergeStage::Done(Ok(_)) => report_on(reports),
        MergeStage::Done(Err(error)) => Processing::Done(Err(error)),
        stage => Processing::Merging { merge: Merge { dir, stage }, reports },
    }
}

impl CoverageClient {
    /// Begins the full processing of a test: merged profile data, text report, HTML report, lcov
    /// report.
    pub fn process_reports(&self, test_name: &str) -> (r: Processing)
        ensures
            r@ == processing_start(self@, test_name@),
    {
        let mut reports: Vec<Report> = Vec::new();
        reports.push(self.generate_text_report(test_name));
        reports.push(self.generate_html_report(test_name));
        reports.push(self.generate_lcov_report(test_name));
        proof {
            assert(report_views(reports@) =~= all_reports(self@, test_name@));
        }
        Processing::Merging { merge: self.merge_profdata(test_name), reports }
    }
}

impl Processing {
    /// What is to be done next, until everything is made or something has failed.
    pub fn request(&self) -> (r: Option<Request>)
        ensures
            request_or_none(r) == processing_request(self@),
    {
        match self {
            Processing::Merging { merge, .. } => merge.request(),
            Processing::Reporting { current, .. } => current.request(),
            Processing::Done(_) => None,
        }
    }

    /// Goes on with what became of the request.
    pub fn resume(self, reply: Reply) -> (r: Processing)
        ensures
            r@ == processing_after(self@, reply@),
    {
        match self {
            Processing::Merging { merge, reports } => merge_on(merge.resume(reply), reports),
            Processing::Reporting { current, rest } => {
                let next = current.resume(reply);
                let mut reports = rest;
                reports.insert(0, next);
                proof {
                    assert(report_views(reports@) =~= seq![next@] + report_views(rest@));
                }
                report_on(reports)
            },
            Processing::Done(outcome) => Processing::Done(outcome),
        }
    }
}

/// Whether every report of a list is in order.
pub open spec fn reports_in_order(reports: Seq<ReportView>) -> bool {
    forall|i: int| 0 <= i < reports.len() ==> report_in_order(#[trigger] reports[i])
}

/// Whether the processing keeps no part at hand that is over.
pub open spec fn processing_in_order(processing: ProcessingView) -> bool {
    match processing {
        ProcessingView::Merging { merge, reports } => merge_in_order(merge) && !(merge.stage is Done)
            && reports_in_order(reports),
        ProcessingView::Reporting { current, rest } => report_in_order(current) && !(
        current.stage is Done) && reports_in_order(rest),
        ProcessingView::Done(_) => true,
    }
}

/// What is left to do of the processing.
pub open spec fn processing_left(processing: ProcessingView) -> Left {
    match processing {
        ProcessingView::Merging { merge, reports } => Left {
            parts: 4 * reports.len() + 4 + merge_left(merge).parts,
            ..merge_left(merge)
        },
        ProcessingView::Reporting { current, rest } => Left {
            parts: 4 * rest.len() + report_left(current).parts,
            ..report_left(current)
        },
        ProcessingView::Done(_) => Left { parts: 0, stages: 0, items: 0 },
    }
}

/// Going on to the reports that are left keeps the order, and leaves less than all of them.
proof fn lemma_reporting(reports: Seq<ReportView>)
    requires
        reports_in_order(reports),
    ensures
        processing_in_order(reporting(reports)),
        processing_left(reporting(reports)).parts <= 4 * reports.len(),
        reports.len() > 0 ==> processing_left(reporting(reports)).parts < 4 * reports.len(),
    decreases reports.len(),
{
    if reports.len() > 0 {
        let rest = reports.skip(1);
        assert(reports_in_order(rest)) by {
            assert forall|i: int| 0 <= i < rest.len() implies report_in_order(
                #[trigger] rest[i],
            ) by {
                assert(rest[i] == reports[i + 1]);
            }
        }
        assert(report_in_order(reports[0]));
        match reports[0].stage {
            ReportStageView::Done(Ok(_)) => {
                lemma_reporting(rest);
            },
            _ => {},
        }
    }
}

/// Processing begins in order.
pub proof fn law_processing_begins_in_order(client: ClientView, test_name: Seq<char>)
    ensures
        processing_in_order(processing_start(client, test_name)),
{
}

/// The processing asks until it is over. A reply that its request may get takes it on, so that
/// less is left to do; any other changes nothing.
pub proof fn law_processing_goes_on(processing: ProcessingView, reply: ReplyView)
    requires
        processing_in_order(processing),
    ensures
        processing_in_order(processing_after(processing, reply)),
        processing_request(processing) is None <==> processing is Done,
        processing_request(processing) is None ==> processing_after(processing, reply)
            == processing,
        processing_request(processing) is Some && !answers(
            processing_request(processing)->Some_0,
            reply,
        ) ==> processing_after(processing, reply) == processing,
        processing_request(processing) is Some && answers(
            processing_request(processing)->Some_0,
            reply,
        ) ==> less(
            processing_left(processing_after(processing, reply)),
            processing_left(processing),
        ),
{
    match processing {
        ProcessingView::Merging { merge, reports } => {
            law_merge_goes_on(merge, reply);
            lemma_reporting(reports);
        },
        ProcessingView::Reporting { current, rest } => {
            law_report_goes_on(current, reply);
            let next = report_after(current, reply);
            let reports = seq![next] + rest;
            assert(reports.skip(1) =~= rest);
            assert(reports[0] == next);
            lemma_reporting(rest);
        },
        ProcessingView::Done(_) => {},
    }
}

/// The processing after replies, one after the other.
pub open spec fn processing_run(processing: ProcessingView, replies: Seq<ReplyView>) -> ProcessingView
    decreases replies.len(),
{
    if replies.len() == 0 {
        processing
    } else {
        processing_run(processing_after(processing, replies[0]), replies.skip(1))
    }
}

/// Whether the first `n` of the replies end the report, and no fewer do.
pub open spec fn report_ends_after(report: ReportView, replies: Seq<ReplyView>, n: int) -> bool {
    &&& 0 <= n <= replies.len()
    &&& report_run(report, replies.take(n)).stage is Done
    &&& forall|m: int|
        0 <= m < n ==> !((#[trigger] report_run(report, replies.take(m))).stage is Done)
}

/// Whether the first `n` of the replies end the merge, and no fewer do.
pub open spec fn merge_ends_after(merge: MergeView, replies: Seq<ReplyView>, n: int) -> bool {
    &&& 0 <= n <= replies.len()
    &&& merge_run(merge, replies.take(n)).stage is Done
    &&& forall|m: int|
        0 <= m < n ==> !((#[trigger] merge_run(merge, replies.take(m))).stage is Done)
}

/// Whether the replies take the reports to this outcome. The first report takes the replies up to
/// the one that ends it, and no more. Made, it leaves the rest of them to the next report; failed,
/// it gives its error.
pub open spec fn reports_end(
    reports: Seq<ReportView>,
    replies: Seq<ReplyView>,
    outcome: Result<(), ErrorView>,
) -> bool
    decreases reports.len(),
{
    if reports.len() == 0 {
        outcome is Ok
    } else {
        exists|n: int| #[trigger]
            report_ends_after(reports[0], replies, n) && match report_run(
                reports[0],
                replies.take(n),
            ).stage {
                ReportStageView::Done(Ok(_)) => reports_end(
                    reports.skip(1),
                    replies.skip(n),
                    outcome,
                ),
                ReportStageView::Done(Err(error)) => outcome == Err::<(), ErrorView>(error),
                _ => false,
            }
    }
}

/// Whether the replies take the merge, and then the reports, to this outcome. The merge takes the
/// replies up to the one that ends it, and no more. Done, it leaves the rest of them to the
/// reports; failed, it gives its error.
pub open spec fn parts_end(
    merge: MergeView,
    reports: Seq<ReportView>,
    replies: Seq<ReplyView>,
    outcome: Result<(), ErrorView>,
) -> bool {
    exists|n: int| #[trigger]
        merge_ends_after(merge, replies, n) && match merge_run(merge, replies.take(n)).stage {
            MergeStageView::Done(Ok(_)) => reports_end(reports, replies.skip(n), outcome),
            MergeStageView::Done(Err(error)) => outcome == Err::<(), ErrorView>(error),
            _ => false,
        }
}

/// Processing that is over stays so.
proof fn lemma_over_stays_over(outcome: Result<(), ErrorView>, replies: Seq<ReplyView>)
    ensures
        processing_run(ProcessingView::Done(outcome), replies) == ProcessingView::Done(outcome),
    decreases replies.len(),
{
    if replies.len() > 0 {
        lemma_over_stays_over(outcome, replies.skip(1));
    }
}

/// A report that is over is so after no reply, and one that is not ends one reply later than what
/// its first reply makes of it.
proof fn lemma_report_ends_after(report: ReportView, replies: Seq<ReplyView>, n: int)
    ensures
        report.stage is Done ==> (report_ends_after(report, replies, n) <==> n == 0),
        report_run(report, replies.take(0)) == report,
        !(report.stage is Done) && report_ends_after(report, replies, n) ==> n > 0,
        !(report.stage is Done) && 0 < n <= replies.len() ==> {
            let next = report_after(report, replies[0]);
            let later = replies.skip(1);
            &&& report_run(report, replies.take(n)) == report_run(next, later.take(n - 1))
            &&& report_ends_after(report, replies, n) <==> report_ends_after(next, later, n - 1)
        },
{
    assert(report_run(report, replies.take(0)) == report);
    if !(report.stage is Done) && 0 < n <= replies.len() {
        let next = report_after(report, replies[0]);
        let later = replies.skip(1);
        assert forall|m: int| 0 < m <= replies.len() implies #[trigger] report_run(
            report,
            replies.take(m),
        ) == report_run(next, later.take(m - 1)) by {
            assert(replies.take(m).skip(1) =~= later.take(m - 1));
        }
        if report_ends_after(report, replies, n) {
            assert forall|m: int| 0 <= m < n - 1 implies !((#[trigger] report_run(
                next,
                later.take(m),
            )).stage is Done) by {
                assert(!(report_run(report, replies.take(m + 1)).stage is Done));
            }
        }
        if report_ends_after(next, later, n - 1) {
            assert forall|m: int| 0 <= m < n implies !((#[trigger] report_run(
                report,
                replies.take(m),
            )).stage is Done) by {
                if m > 0 {
                    assert(!(report_run(next, later.take(m - 1)).stage is Done));
                }
            }
        }
    }
}

/// A merge that is over is so after no reply, and one that is not ends one reply later than what
/// its first reply makes of it.
proof fn lemma_merge_ends_after(merge: MergeView, replies: Seq<ReplyView>, n: int)
    ensures
        merge.stage is Done ==> (merge_ends_after(merge, replies, n) <==> n == 0),
        merge_run(merge, replies.take(0)) == merge,
        !(merge.stage is Done) && merge_ends_after(merge, replies, n) ==> n > 0,
        !(merge.stage is Done) && 0 < n <= replies.len() ==> {
            let next = merge_after(merge, replies[0]);
            let later = replies.skip(1);
            &&& merge_run(merge, replies.take(n)) == merge_run(next, later.take(n - 1))
            &&& merge_ends_after(merge, replies, n) <==> merge_ends_after(next, later, n - 1)
        },
{
    assert(merge_run(merge, replies.take(0)) == merge);
    if !(merge.stage is Done) && 0 < n <= replies.len() {
        let next = merge_after(merge, replies[0]);
        let later = replies.skip(1);
        assert forall|m: int| 0 < m <= replies.len() implies #[trigger] merge_run(
            merge,
            replies.take(m),
        ) == merge_run(next, later.take(m - 1)) by {
            assert(replies.take(m).skip(1) =~= later.take(m - 1));
        }
        if merge_ends_after(merge, replies, n) {
            assert forall|m: int| 0 <= m < n - 1 implies !((#[trigger] merge_run(
                next,
                later.take(m),
            )).stage is Done) by {
                assert(!(merge_run(merge, replies.take(m + 1)).stage is Done));
            }
        }
        if merge_ends_after(next, later, n - 1) {
            assert forall|m: int| 0 <= m < n implies !((#[trigger] merge_run(
                merge,
                replies.take(m),
            )).stage is Done) by {
                if m > 0 {
                    assert(!(merge_run(next, later.take(m - 1)).stage is Done));
                }
            }
        }
    }
}

/// The outcome of reports, the first of them under way, is that of what its first reply leaves.
proof fn lemma_reports_end_later(
    reports: Seq<ReportView>,
    replies: Seq<ReplyView>,
    outcome: Result<(), ErrorView>,
)
    requires
        reports.len() > 0,
        !(reports[0].stage is Done),
        replies.len() > 0,
    ensures
        reports_end(reports, replies, outcome) <==> reports_end(
            seq![report_after(reports[0], replies[0])] + reports.skip(1),
            replies.skip(1),
            outcome,
        ),
{
    let first = reports[0];
    let next = seq![report_after(first, replies[0])] + reports.skip(1);
    let later = replies.skip(1);
    assert(next.skip(1) =~= reports.skip(1));
    if reports_end(next, later, outcome) {
        let n = choose|n: int| #[trigger]
            report_ends_after(next[0], later, n) && match report_run(
                next[0],
                later.take(n),
            ).stage {
                ReportStageView::Done(Ok(_)) => reports_end(next.skip(1), later.skip(n), outcome),
                ReportStageView::Done(Err(error)) => outcome == Err::<(), ErrorView>(error),
                _ => false,
            };
        lemma_report_ends_after(first, replies, n + 1);
        assert(replies.skip(n + 1) =~= later.skip(n));
        assert(report_ends_after(reports[0], replies, n + 1));
    }
    if reports_end(reports, replies, outcome) {
        let n = choose|n: int| #[trigger]
            report_ends_after(reports[0], replies, n) && match report_run(
                reports[0],
                replies.take(n),
            ).stage {
                ReportStageView::Done(Ok(_)) => reports_end(
                    reports.skip(1),
                    replies.skip(n),
                    outcome,
                ),
                ReportStageView::Done(Err(error)) => outcome == Err::<(), ErrorView>(error),
                _ => false,
            };
        lemma_report_ends_after(first, replies, n);
        assert(replies.skip(n) =~= later.skip(n - 1));
        assert(report_ends_after(next[0], later, n - 1));
    }
}

/// The processing of reports comes to an outcome exactly where they do, one after the other.
proof fn lemma_reports_end(
    reports: Seq<ReportView>,
    replies: Seq<ReplyView>,
    outcome: Result<(), ErrorView>,
)
    ensures
        processing_run(reporting(reports), replies) == ProcessingView::Done(outcome)
            <==> reports_end(reports, replies, outcome),
    decreases reports.len(), replies.len(),
{
    if reports.len() == 0 {
        lemma_over_stays_over(Ok(()), replies);
        assert(outcome is Ok ==> outcome->Ok_0 == ());
    } else {
        let first = reports[0];
        assert forall|n: int| first.stage is Done implies (#[trigger] report_ends_after(
            first,
            replies,
            n,
        ) <==> n == 0) by {
            lemma_report_ends_after(first, replies, n);
        }
        lemma_report_ends_after(first, replies, 0);
        match first.stage {
            ReportStageView::Done(Ok(_)) => {
                lemma_reports_end(reports.skip(1), replies, outcome);
                assert(replies.skip(0) =~= replies);
            },
            ReportStageView::Done(Err(error)) => {
                lemma_over_stays_over(Err(error), replies);
            },
            _ => {
                if replies.len() > 0 {
                    let next = seq![report_after(first, replies[0])] + reports.skip(1);
                    lemma_reports_end_later(reports, replies, outcome);
                    lemma_reports_end(next, replies.skip(1), outcome);
                }
            },
        }
    }
}

/// The processing comes to an outcome exactly where its parts do, one after the other.
proof fn lemma_parts_end(
    merge: MergeView,
    reports: Seq<ReportView>,
    replies: Seq<ReplyView>,
    outcome: Result<(), ErrorView>,
)
    ensures
        processing_run(merging(merge, reports), replies) == ProcessingView::Done(outcome)
            <==> parts_end(merge, reports, replies, outcome),
    decreases replies.len(),
{
    assert forall|n: int| merge.stage is Done implies (#[trigger] merge_ends_after(
        merge,
        replies,
        n,
    ) <==> n == 0) by {
        lemma_merge_ends_after(merge, replies, n);
    }
    lemma_merge_ends_after(merge, replies, 0);
    match merge.stage {
        MergeStageView::Done(Ok(_)) => {
            lemma_reports_end(reports, replies, outcome);
            assert(replies.skip(0) =~= replies);
        },
        MergeStageView::Done(Err(error)) => {
            lemma_over_stays_over(Err(error), replies);
        },
        _ => {
            if replies.len() > 0 {
                let next = merge_after(merge, replies[0]);
                let later = replies.skip(1);
                lemma_parts_end(next, reports, later, outcome);
                if parts_end(next, reports, later, outcome) {
                    let n = choose|n: int| #[trigger]
                        merge_ends_after(next, later, n) && match merge_run(
                            next,
                            later.take(n),
                        ).stage {
                            MergeStageView::Done(Ok(_)) => reports_end(
                                reports,
                                later.skip(n),
                                outcome,
                            ),
                            MergeStageView::Done(Err(error)) => outcome == Err::<(), ErrorView>(
                                error,
                            ),
                            _ => false,
                        };
                    lemma_merge_ends_after(merge, replies, n + 1);
                    assert(replies.skip(n + 1) =~= later.skip(n));
                    assert(merge_ends_after(merge, replies, n + 1));
                }
                if parts_end(merge, reports, replies, outcome) {
                    let n = choose|n: int| #[trigger]
                        merge_ends_after(merge, replies, n) && match merge_run(
                            merge,
                            replies.take(n),
                        ).stage {
                            MergeStageView::Done(Ok(_)) => reports_end(
                                reports,
                                replies.skip(n),
                                outcome,
                            ),
                            MergeStageView::Done(Err(error)) => outcome == Err::<(), ErrorView>(
                                error,
                            ),
                            _ => false,
                        };
                    lemma_merge_ends_after(merge, replies, n);
                    assert(replies.skip(n) =~= later.skip(n - 1));
                    assert(merge_ends_after(next, later, n - 1));
                }
            }
        },
    }
}

/// Whatever the replies, the processing of a test comes to an outcome exactly where its parts do:
/// the merge first, then the text report, the HTML report and the lcov report. Each takes the
/// replies that follow those of the part before it, up to the one that ends it. The processing
/// ends well if and only if all four parts did, and else with the error of the first that failed.
pub proof fn law_processing_takes_its_parts_in_order(
    client: ClientView,
    test_name: Seq<char>,
    replies: Seq<ReplyView>,
    outcome: Result<(), ErrorView>,
)
    ensures
        processing_run(processing_start(client, test_name), replies) == ProcessingView::Done(
            outcome,
        ) <==> parts_end(
            merge_start(client, test_name),
            all_reports(client, test_name),
            replies,
            outcome,
        ),
{
    lemma_parts_end(
        merge_start(client, test_name),
        all_reports(client, test_name),
        replies,
        outcome,
    );
}

/// Processing that has begun is to merge, and has exactly three reports before it, whatever is set
/// on the client: the text report, the HTML report and the lcov report, in this order, each as it is
/// made by itself.
pub proof fn law_processing_has_three_reports_before_it(client: ClientView, test_name: Seq<char>)
    ensures
        processing_start(client, test_name) matches ProcessingView::Merging { merge, reports } && {
            &&& merge == merge_start(client, test_name)
            &&& reports.len() == 3
            &&& reports[0].kind is Text
            &&& reports[1].kind is Html
            &&& reports[2].kind is Lcov
            &&& forall|i: int|
                0 <= i < 3 ==> #[trigger] reports[i] == report_start(
                    client,
                    reports[i].kind,
                    test_name,
                )
        },
{
}

/// What the processing asks for once it has got the first `n` of the replies.
pub open spec fn asked_after(
    processing: ProcessingView,
    replies: Seq<ReplyView>,
    n: int,
) -> Option<RequestView> {
    processing_request(processing_run(processing, replies.take(n)))
}

/// Whether the processing asks, at one of the replies, for a file to be written at a path.
pub open spec fn writes(
    processing: ProcessingView,
    replies: Seq<ReplyView>,
    target: Seq<u8>,
) -> bool {
    exists|n: int|
        0 <= n < replies.len() && ((#[trigger] asked_after(processing, replies, n)) matches Some(
            RequestView::WriteFile { path, .. },
        ) && path == target)
}

/// Whether the processing asks, at one of the replies, for a program to be run with these arguments.
pub open spec fn runs(
    processing: ProcessingView,
    replies: Seq<ReplyView>,
    args: Seq<Seq<u8>>,
) -> bool {
    exists|n: int|
        0 <= n < replies.len() && ((#[trigger] asked_after(processing, replies, n)) matches Some(
            RequestView::Run(command),
        ) && command.args == args)
}

/// What is asked for after the first reply is asked for.
proof fn lemma_asked_later(
    processing: ProcessingView,
    replies: Seq<ReplyView>,
    target: Seq<u8>,
    args: Seq<Seq<u8>>,
)
    requires
        replies.len() > 0,
    ensures
        writes(processing_after(processing, replies[0]), replies.skip(1), target) ==> writes(
            processing,
            replies,
            target,
        ),
        runs(processing_after(processing, replies[0]), replies.skip(1), args) ==> runs(
            processing,
            replies,
            args,
        ),
{
    let next = processing_after(processing, replies[0]);
    let later = replies.skip(1);
    assert forall|n: int| 0 <= n < later.len() implies #[trigger] asked_after(next, later, n)
        == asked_after(processing, replies, n + 1) by {
        assert(replies.take(n + 1).skip(1) =~= later.take(n));
        assert(processing_run(processing, replies.take(n + 1)) == processing_run(
            next,
            later.take(n),
        ));
    }
    if writes(next, later, target) {
        let n = choose|n: int|
            0 <= n < later.len() && ((#[trigger] asked_after(next, later, n)) matches Some(
                RequestView::WriteFile { path, .. },
            ) && path == target);
        assert(asked_after(processing, replies, n + 1) == asked_after(next, later, n));
    }
    if runs(next, later, args) {
        let n = choose|n: int|
            0 <= n < later.len() && ((#[trigger] asked_after(next, later, n)) matches Some(
                RequestView::Run(command),
            ) && command.args == args);
        assert(asked_after(processing, replies, n + 1) == asked_after(next, later, n));
    }
}

/// Whether a report is still before the processing.
pub open spec fn is_pending(processing: ProcessingView, report: ReportView) -> bool {
    match processing {
        ProcessingView::Merging { reports, .. } => reports.contains(report),
        ProcessingView::Reporting { current, rest } => current == report || rest.contains(report),
        ProcessingView::Done(_) => false,
    }
}

/// A report that is not made is not passed over.
proof fn lemma_report_is_not_passed_over(reports: Seq<ReportView>, report: ReportView)
    requires
        reports.contains(report),
        !(report.stage matches ReportStageView::Done(Ok(_))),
    ensures
        is_pending(reporting(reports), report) || (reporting(reports) matches ProcessingView::Done(
            Err(_),
        )),
    decreases reports.len(),
{
    let rest = reports.skip(1);
    let i = reports.index_of(report);
    if i > 0 {
        assert(rest[i - 1] == report);
        assert(rest.contains(report));
    }
    match reports[0].stage {
        ReportStageView::Done(Ok(_)) => {
            lemma_report_is_not_passed_over(rest, report);
        },
        _ => {},
    }
}

/// Processing that ends well has run `llvm-cov` for every report before it, and has written every
/// one that is written.
proof fn lemma_reports_are_made(
    processing: ProcessingView,
    replies: Seq<ReplyView>,
    report: ReportView,
)
    requires
        is_pending(processing, report),
        !(report.stage matches ReportStageView::Done(Ok(_))),
        processing_run(processing, replies) == ProcessingView::Done(Ok(())),
    ensures
        !(report.kind is Html) ==> writes(processing, replies, report.target),
        !(report.stage is Saving) ==> runs(processing, replies, report.args),
    decreases replies.len(),
{
    if replies.len() > 0 {
        let reply = replies[0];
        let next = processing_after(processing, reply);
        let later = replies.skip(1);
        lemma_asked_later(processing, replies, report.target, report.args);
        assert(processing_run(processing, replies.take(0)) == processing);
        assert(asked_after(processing, replies, 0) == processing_request(processing));
        match next {
            ProcessingView::Done(outcome) => {
                lemma_over_stays_over(outcome, later);
            },
            _ => {},
        }
        match processing {
            ProcessingView::Merging { merge, reports } => {
                lemma_report_is_not_passed_over(reports, report);
                lemma_reports_are_made(next, later, report);
            },
            ProcessingView::Reporting { current, rest } => {
                let after = report_after(current, reply);
                let reports = seq![after] + rest;
                if current == report {
                    assert(reports[0] == after);
                    assert(reports.contains(after));
                    if !(after.stage matches ReportStageView::Done(Ok(_))) {
                        lemma_report_is_not_passed_over(reports, after);
                        lemma_reports_are_made(next, later, after);
                    }
                } else {
                    let i = rest.index_of(report);
                    assert(reports[i + 1] == report);
                    assert(reports.contains(report));
                    lemma_report_is_not_passed_over(reports, report);
                    lemma_reports_are_made(next, later, report);
                }
            },
            ProcessingView::Done(_) => {},
        }
    }
}

/// Processing that ends well has written the text report and the lcov report of its test, in the
/// directory of the test, and has run `llvm-cov` with the arguments of each of its three reports.
pub proof fn law_good_processing_has_made_every_report(
    client: ClientView,
    test_name: Seq<char>,
    replies: Seq<ReplyView>,
)
    requires
        processing_run(processing_start(client, test_name), replies) == ProcessingView::Done(
            Ok(()),
        ),
    ensures
        ({
            let start = processing_start(client, test_name);
            let dir = joined(client.output_dir, utf8(test_name));
            &&& writes(start, replies, joined(dir, utf8("coverage.txt"@)))
            &&& writes(start, replies, joined(dir, utf8("lcov.info"@)))
            &&& runs(start, replies, report_start(client, ReportKind::Text, test_name).args)
            &&& runs(start, replies, report_start(client, ReportKind::Html, test_name).args)
            &&& runs(start, replies, report_start(client, ReportKind::Lcov, test_name).args)
        }),
{
    let start = processing_start(client, test_name);
    let reports = all_reports(client, test_name);
    assert forall|i: int| 0 <= i < 3 implies #[trigger] is_pending(start, reports[i]) by {
        assert(reports.contains(reports[i]));
    }
    lemma_reports_are_made(start, replies, reports[0]);
    lemma_reports_are_made(start, replies, reports[1]);
    lemma_reports_are_made(start, replies, reports[2]);
}

/// Processing that ends well has run the merge.
proof fn lemma_merge_is_run(processing: ProcessingView, replies: Seq<ReplyView>) -> (n: int)
    requires
        processing is Merging,
        !(processing->merge.stage is Done),
        processing_run(processing, replies) == ProcessingView::Done(Ok(())),
    ensures
        0 <= n < replies.len(),
        asked_after(processing, replies, n) matches Some(RequestView::Run(command))
            && command.args.len() > 0 && command.args[0] == utf8("merge"@) && command.args.last()
            == joined(processing->merge.dir, utf8("coverage.profdata"@)),
    decreases replies.len(),
{
    let reply = replies[0];
    let next = processing_after(processing, reply);
    let later = replies.skip(1);
    assert(replies.len() > 0);
    assert(processing_run(processing, replies.take(0)) == processing);
    match next {
        ProcessingView::Done(outcome) => {
            lemma_over_stays_over(outcome, later);
        },
        _ => {},
    }
    if processing->merge.stage is Running {
        0
    } else {
        let n = lemma_merge_is_run(next, later);
        assert(replies.take(n + 1).skip(1) =~= later.take(n));
        assert(processing_run(processing, replies.take(n + 1)) == processing_run(
            next,
            later.take(n),
        ));
        n + 1
    }
}

/// Processing that ends well has merged first: it has listed the directory of its test, and has run
/// `llvm-profdata` to merge into `coverage.profdata` there.
pub proof fn law_good_processing_has_merged(
    client: ClientView,
    test_name: Seq<char>,
    replies: Seq<ReplyView>,
)
    requires
        processing_run(processing_start(client, test_name), replies) == ProcessingView::Done(
            Ok(()),
        ),
    ensures
        ({
            let start = processing_start(client, test_name);
            let dir = joined(client.output_dir, utf8(test_name));
            &&& asked_after(start, replies, 0) == Some(RequestView::ListDir(dir))
            &&& exists|n: int|
                0 < n < replies.len() && ((#[trigger] asked_after(start, replies, n)) matches Some(
                    RequestView::Run(command),
                ) && command.args.len() > 0 && command.args[0] == utf8("merge"@)
                    && command.args.last() == joined(dir, utf8("coverage.profdata"@)))
        }),
{
    let start = processing_start(client, test_name);
    let n = lemma_merge_is_run(start, replies);
    assert(processing_run(start, replies.take(0)) == start);
    assert(asked_after(start, replies, 0) == merge_request(merge_start(client, test_name)));
    assert(n > 0);
}

/// The processing asks for what its part at hand asks for, and goes on as that part does. A part that
/// is done makes way for the next, and one that fails ends the processing with its error.
pub proof fn law_processing_follows_its_part(processing: ProcessingView, reply: ReplyView)
    ensures
        processing matches ProcessingView::Merging { merge, reports } ==> {
            let after = merge_after(merge, reply);
            &&& processing_request(processing) == merge_request(merge)
            &&& match after.stage {
                MergeStageView::Done(Ok(_)) => reports.len() > 0 && !(reports[0].stage is Done)
                    ==> processing_after(processing, reply) == (ProcessingView::Reporting {
                    current: reports[0],
                    rest: reports.skip(1),
                }),
                MergeStageView::Done(Err(error)) => processing_after(processing, reply)
                    == ProcessingView::Done(Err(error)),
                _ => processing_after(processing, reply) == (ProcessingView::Merging {
                    merge: after,
                    reports,
                }),
            }
        },
        processing matches ProcessingView::Reporting { current, rest } ==> {
            let after = report_after(current, reply);
            &&& processing_request(processing) == report_request(current)
            &&& match after.stage {
                ReportStageView::Done(Ok(_)) => {
                    &&& rest.len() == 0 ==> processing_after(processing, reply)
                        == ProcessingView::Done(Ok(()))
                    &&& rest.len() > 0 && !(rest[0].stage is Done) ==> processing_after(
                        processing,
                        reply,
                    ) == (ProcessingView::Reporting { current: rest[0], rest: rest.skip(1) })
                },
                ReportStageView::Done(Err(error)) => processing_after(processing, reply)
                    == ProcessingView::Done(Err(error)),
                _ => processing_after(processing, reply) == (ProcessingView::Reporting {
                    current: after,
                    rest,
                }),
            }
        },
        processing is Done ==> processing_request(processing) is None && processing_after(
            processing,
            reply,
        ) == processing,
{
    reveal_with_fuel(reporting, 2);
    match processing {
        ProcessingView::Reporting { current, rest } => {
            assert((seq![report_after(current, reply)] + rest).skip(1) =~= rest);
        },
        _ => {},
    }
}

} // verus!
