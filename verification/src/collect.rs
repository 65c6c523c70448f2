//! The collection of profile data, from a server or from a pod.

use crate::client::{test_dir, ClientView, CoverageClient};
use crate::encoding::{base64_decoded, decode, Base64Error};
use crate::error::{CoverageError, ErrorView};
use crate::path::{copy_bytes, joined, FilePath};
use crate::request::{
    answers, byte_strings, less, path_outcome, push_text, request_or_none, CollectionMetadata,
    CommandLine, CommandView, CoverageResponse, Left, MetadataView, Reply, ReplyView, Request,
    RequestView, ResponseView,
};
use crate::status::{is_success_code, status_line, HttpStatus};
use crate::text::{
    concat_texts, concat_three, copy_text, decimal, decimal_text, law_bytes_tell_the_text,
    law_decimal_is_read_back, law_numbers_are_told_apart, parsed_u16, shown, text_or_none, utf8,
};
use vstd::prelude::*;
use vstd::string::*;

verus! {

/// How far a collection from a server has come.
#[derive(Debug, PartialEq, Eq)]
pub enum CollectStage {
    /// The directory of the test is created.
    Preparing,
    /// The server is asked.
    Posting,
    /// The server has refused with this status; the body of its answer is read.
    Refused(HttpStatus),
    /// The answer is read.
    Reading,
    /// The profile data is written to this file.
    Saving { path: FilePath, contents: Vec<u8> },
    /// The profile data is there, or the collection has failed.
    Done(Result<FilePath, CoverageError>),
}

/// The model of a [`CollectStage`].
#[verifier::ext_equal]
pub enum CollectStageView {
    Preparing,
    Posting,
    Refused(u16),
    Reading,
    Saving { path: Seq<u8>, contents: Seq<u8> },
    Done(Result<Seq<u8>, ErrorView>),
}

impl View for CollectStage {
    type V = CollectStageView;

    open spec fn view(&self) -> CollectStageView {
        match *self {
            CollectStage::Preparing => CollectStageView::Preparing,
            CollectStage::Posting => CollectStageView::Posting,
            CollectStage::Refused(status) => CollectStageView::Refused(status@),
            CollectStage::Reading => CollectStageView::Reading,
            CollectStage::Saving { path, contents } => CollectStageView::Saving {
                path: path@,
                contents: contents@,
            },
            CollectStage::Done(outcome) => CollectStageView::Done(path_outcome(outcome)),
        }
    }
}

/// A collection of profile data from a server.
#[derive(Debug, PartialEq, Eq)]
pub struct UrlCollection {
    /// The address that gives coverage.
    pub url: String,
    pub test_name: String,
    /// The directory of the test.
    pub dir: FilePath,
    pub stage: CollectStage,
}

/// The model of a [`UrlCollection`].
#[verifier::ext_equal]
pub struct CollectView {
    pub url: Seq<char>,
    pub test_name: Seq<char>,
    pub dir: Seq<u8>,
    pub stage: CollectStageView,
}

impl View for UrlCollection {
    type V = CollectView;

    open spec fn view(&self) -> CollectView {
        CollectView {
            url: self.url@,
            test_name: self.test_name@,
            dir: self.dir@,
            stage: self.stage@,
        }
    }
}

/// A collection from a server that has just begun.
pub open spec fn collect_start(url: Seq<char>, test_name: Seq<char>, dir: Seq<u8>) -> CollectView {
    CollectView { url, test_name, dir, stage: CollectStageView::Preparing }
}

/// The error where the server answers with a status that is none of success.
pub open spec fn refusal(line: Seq<char>, body: Option<Seq<char>>) -> ErrorView {
    ErrorView::Other(
        "Coverage server returned "@ + line + ": "@ + match body {
            Some(text) => text,
            None => Seq::empty(),
        },
    )
}

/// The stage after profile data has been decoded: it goes to its file, by the name that the
/// server gave it, in the directory of the test.
pub open spec fn store_stage(
    dir: Seq<u8>,
    filename: Seq<char>,
    decoded: Result<Seq<u8>, Base64Error>,
) -> CollectStageView {
    match decoded {
        Ok(contents) => CollectStageView::Saving { path: joined(dir, utf8(filename)), contents },
        Err(error) => CollectStageView::Done(Err(ErrorView::Base64(error))),
    }
}

/// The stage after the server's answer has been read.
pub open spec fn answer_stage(dir: Seq<u8>, response: ResponseView) -> CollectStageView {
    if response.coverage_enabled {
        store_stage(dir, response.profraw_filename, base64_decoded(response.profraw_data))
    } else {
        CollectStageView::Done(Err(ErrorView::CoverageNotEnabled))
    }
}

/// What a collection asks for next, until it is over.
pub open spec fn collect_request(collection: CollectView) -> Option<RequestView> {
    match collection.stage {
        CollectStageView::Preparing => Some(RequestView::CreateDir(collection.dir)),
        CollectStageView::Posting => Some(
            RequestView::Post { url: collection.url, test_name: Some(collection.test_name) },
        ),
        CollectStageView::Refused(_) => Some(RequestView::ReadBody),
        CollectStageView::Reading => Some(RequestView::ReadCoverage),
        CollectStageView::Saving { path, contents } => Some(
            RequestView::WriteFile { path, contents },
        ),
        CollectStageView::Done(_) => None,
    }
}

/// The stage of a collection after a reply. A reply of another kind than the request calls for
/// changes nothing.
pub open spec fn collect_stage_after(
    collection: CollectView,
    reply: ReplyView,
) -> CollectStageView {
    match (collection.stage, reply) {
        (CollectStageView::Preparing, ReplyView::Done) => CollectStageView::Posting,
        (CollectStageView::Preparing, ReplyView::Failed(reason)) => CollectStageView::Done(
            Err(ErrorView::Io(reason)),
        ),
        (CollectStageView::Posting, ReplyView::Failed(reason)) => CollectStageView::Done(
            Err(ErrorView::Http(reason)),
        ),
        (CollectStageView::Posting, ReplyView::Status(code)) => if is_success_code(code) {
            CollectStageView::Reading
        } else {
            CollectStageView::Refused(code)
        },
        (CollectStageView::Refused(code), ReplyView::Body(body)) => CollectStageView::Done(
            Err(refusal(status_line(code), body)),
        ),
        (CollectStageView::Reading, ReplyView::Failed(reason)) => CollectStageView::Done(
            Err(ErrorView::Http(reason)),
        ),
        (CollectStageView::Reading, ReplyView::Coverage(response)) => answer_stage(
            collection.dir,
            response,
        ),
        (CollectStageView::Saving { path, .. }, ReplyView::Done) => CollectStageView::Done(
            Ok(path),
        ),
        (CollectStageView::Saving { .. }, ReplyView::Failed(reason)) => CollectStageView::Done(
            Err(ErrorView::Io(reason)),
        ),
        (stage, _) => stage,
    }
}

/// A collection after a reply.
pub open spec fn collect_after(collection: CollectView, reply: ReplyView) -> CollectView {
    CollectView { stage: collect_stage_after(collection, reply), ..collection }
}

/// The error where the server answers with a status that is none of success; `line` is that
/// status with its reason phrase.
pub fn refused(line: &str, body: Option<String>) -> (r: CoverageError)
    ensures
        r@ == refusal(line@, text_or_none(body)),
{
    let mut text = concat_three("Coverage server returned ", line, ": ");
    match body {
        Some(body) => {
            text.append(body.as_str());
        },
        None => {
            proof {
                assert(text@ + Seq::<char>::empty() =~= text@);
            }
        },
    }
    CoverageError::Other(text)
}

/// The stage after profile data has been decoded.
pub fn store_profile(
    dir: &FilePath,
    filename: &str,
    decoded: Result<Vec<u8>, Base64Error>,
) -> (r: CollectStage)
    ensures
        r@ == store_stage(
            dir@,
            filename@,
            match decoded {
                Ok(contents) => Ok(contents@),
                Err(error) => Err(error),
            },
        ),
{
    match decoded {
        Ok(contents) => CollectStage::Saving { path: dir.join_text(filename), contents },
        Err(error) => CollectStage::Done(Err(CoverageError::Base64(error))),
    }
}

/// The stage after the server's answer has been read.
fn take_answer(dir: &FilePath, response: CoverageResponse) -> (r: CollectStage)
    ensures
        r@ == answer_stage(dir@, response@),
{
    if response.coverage_enabled {
        store_profile(
            dir,
            response.profraw_filename.as_str(),
            decode(response.profraw_data.as_str()),
        )
    } else {
        CollectStage::Done(Err(CoverageError::CoverageNotEnabled))
    }
}

impl UrlCollection {
    /// Begins to collect from a server.
    fn begin(url: &str, test_name: &str, dir: FilePath) -> (r: UrlCollection)
        ensures
            r@ == collect_start(url@, test_name@, dir@),
    {
        UrlCollection {
            url: url.to_owned(),
            test_name: test_name.to_owned(),
            dir,
            stage: CollectStage::Preparing,
        }
    }

    /// What is to be done next, until the collection is over.
    pub fn request(&self) -> (r: Option<Request>)
        ensures
            request_or_none(r) == collect_request(self@),
    {
        match &self.stage {
            CollectStage::Preparing => Some(Request::CreateDir(self.dir.copy())),
            CollectStage::Posting => Some(
                Request::Post { url: self.url.clone(), test_name: Some(self.test_name.clone()) },
            ),
            CollectStage::Refused(_) => Some(Request::ReadBody),
            CollectStage::Reading => Some(Request::ReadCoverage),
            CollectStage::Saving { path, contents } => Some(
                Request::WriteFile { path: path.copy(), contents: copy_bytes(contents) },
            ),
            CollectStage::Done(_) => None,
        }
    }

    /// Goes on with what became of the request.
    pub fn resume(self, reply: Reply) -> (r: UrlCollection)
        ensures
            r@ == collect_after(self@, reply@),
    {
        let UrlCollection { url, test_name, dir, stage } = self;
        let next = match (stage, reply) {
            (CollectStage::Preparing, Reply::Done) => CollectStage::Posting,
            (CollectStage::Preparing, Reply::Failed(reason)) => CollectStage::Done(
                Err(CoverageError::Io(reason)),
            ),
            (CollectStage::Posting, Reply::Failed(reason)) => CollectStage::Done(
                Err(CoverageError::Http(reason)),
            ),
            (CollectStage::Posting, Reply::Status(status)) => {
                if status.is_success() {
                    CollectStage::Reading
                } else {
                    CollectStage::Refused(status)
                }
            },
            (CollectStage::Refused(status), Reply::Body(body)) => CollectStage::Done(
                Err(refused(status.line().as_str(), body)),
            ),
            (CollectStage::Reading, Reply::Failed(reason)) => CollectStage::Done(
                Err(CoverageError::Http(reason)),
            ),
            (CollectStage::Reading, Reply::Coverage(response)) => take_answer(&dir, response),
            (CollectStage::Saving { path, .. }, Reply::Done) => CollectStage::Done(Ok(path)),
            (CollectStage::Saving { .. }, Reply::Failed(reason)) => CollectStage::Done(
                Err(CoverageError::Io(reason)),
            ),
            (stage, _) => stage,
        };
        UrlCollection { url, test_name, dir, stage: next }
    }
}

/// How far a collection from a pod has come.
#[derive(Debug, PartialEq, Eq)]
pub enum PodStage {
    /// The directory of the test is created.
    Preparing,
    /// The port of the pod is forwarded.
    Forwarding,
    /// The forwarding is given time to begin.
    Settling,
    /// Coverage is collected through the forwarded port.
    Collecting(UrlCollection),
    /// The forwarding is ended; this came of the collection.
    Stopping(Result<FilePath, CoverageError>),
    /// The clock is read.
    Dating(FilePath),
    /// The record is written.
    Recording { profile: FilePath, metadata: CollectionMetadata },
    /// The profile data and its record are there, or the collection has failed.
    Done(Result<FilePath, CoverageError>),
}

/// The model of a [`PodStage`].
#[verifier::ext_equal]
pub enum PodStageView {
    Preparing,
    Forwarding,
    Settling,
    Collecting(CollectView),
    Stopping(Result<Seq<u8>, ErrorView>),
    Dating(Seq<u8>),
    Recording { profile: Seq<u8>, metadata: MetadataView },
    Done(Result<Seq<u8>, ErrorView>),
}

impl View for PodStage {
    type V = PodStageView;

    open spec fn view(&self) -> PodStageView {
        match *self {
            PodStage::Preparing => PodStageView::Preparing,
            PodStage::Forwarding => PodStageView::Forwarding,
            PodStage::Settling => PodStageView::Settling,
            PodStage::Collecting(collection) => PodStageView::Collecting(collection@),
            PodStage::Stopping(outcome) => PodStageView::Stopping(path_outcome(outcome)),
            PodStage::Dating(profile) => PodStageView::Dating(profile@),
            PodStage::Recording { profile, metadata } => PodStageView::Recording {
                profile: profile@,
                metadata: metadata@,
            },
            PodStage::Done(outcome) => PodStageView::Done(path_outcome(outcome)),
        }
    }
}

/// A collection of profile data from a pod.
#[derive(Debug, PartialEq, Eq)]
pub struct PodCollection {
    pub pod_name: String,
    pub namespace: String,
    pub test_name: String,
    /// The instrumented binary, for the record.
    pub binary: Option<String>,
    /// The directory of the test.
    pub dir: FilePath,
    /// The port of the server in the pod.
    pub target_port: u16,
    /// The local port that is forwarded to it.
    pub local_port: u16,
    pub stage: PodStage,
}

/// The model of a [`PodCollection`].
#[verifier::ext_equal]
pub struct PodView {
    pub pod_name: Seq<char>,
    pub namespace: Seq<char>,
    pub test_name: Seq<char>,
    pub binary: Option<Seq<char>>,
    pub dir: Seq<u8>,
    pub target_port: u16,
    pub local_port: u16,
    pub stage: PodStageView,
}

impl View for PodCollection {
    type V = PodView;

    open spec fn view(&self) -> PodView {
        PodView {
            pod_name: self.pod_name@,
            namespace: self.namespace@,
            test_name: self.test_name@,
            binary: text_or_none(self.binary),
            dir: self.dir@,
            target_port: self.target_port,
            local_port: self.local_port,
            stage: self.stage@,
        }
    }
}

/// How long the forwarding is given to begin, in seconds.
pub const SETTLING_SECONDS: u64 = 2;

/// The path as it goes into the record.
pub open spec fn recorded_binary(binary: Option<Seq<u8>>) -> Option<Seq<char>> {
    match binary {
        Some(path) => Some(shown(path)),
        None => None,
    }
}

/// A collection from a pod that has just begun.
pub open spec fn pod_start(
    client: ClientView,
    pod_name: Seq<char>,
    test_name: Seq<char>,
    target_port: u16,
) -> PodView {
    PodView {
        pod_name,
        namespace: client.namespace,
        test_name,
        binary: recorded_binary(client.binary_path),
        dir: test_dir(client, test_name),
        target_port,
        local_port: target_port,
        stage: PodStageView::Preparing,
    }
}

/// The command that forwards a port of a pod to a local port that `kubectl` picks.
pub open spec fn forward_command(
    namespace: Seq<char>,
    pod_name: Seq<char>,
    target_port: u16,
) -> CommandView {
    CommandView {
        program: utf8("kubectl"@),
        args: seq![
            utf8("port-forward"@),
            utf8("-n"@),
            utf8(namespace),
            utf8("pod/"@ + pod_name),
            utf8("0:"@ + decimal(target_port as nat)),
        ],
    }
}

/// The address that gives coverage behind a local port.
pub open spec fn local_url(port: u16) -> Seq<char> {
    "http://127.0.0.1:"@ + decimal(port as nat) + "/coverage"@
}

/// A moment, as the record has it: the seconds since the Unix epoch, or zero before it.
pub open spec fn timestamp_text(seconds: Option<u64>) -> Seq<char> {
    decimal(
        match seconds {
            Some(seconds) => seconds as nat,
            None => 0,
        },
    ) + "s"@
}

/// The record of a collection, in the directory of its test.
pub open spec fn metadata_path(dir: Seq<u8>) -> Seq<u8> {
    joined(dir, utf8("metadata.json"@))
}

/// The record of a collection from a pod.
pub open spec fn pod_metadata(collection: PodView, seconds: Option<u64>) -> MetadataView {
    MetadataView {
        pod_name: collection.pod_name,
        namespace: collection.namespace,
        container: None,
        test_name: collection.test_name,
        timestamp: timestamp_text(seconds),
        binary_path: collection.binary,
    }
}

/// The stage that a collection through the forwarded port leads to.
pub open spec fn pod_stage_from(collection: CollectView) -> PodStageView {
    match collection.stage {
        CollectStageView::Done(outcome) => PodStageView::Stopping(outcome),
        _ => PodStageView::Collecting(collection),
    }
}

/// The stage once the forwarding has ended, however that went.
pub open spec fn stopped_stage(outcome: Result<Seq<u8>, ErrorView>) -> PodStageView {
    match outcome {
        Ok(profile) => PodStageView::Dating(profile),
        Err(error) => PodStageView::Done(Err(error)),
    }
}

/// What a collection from a pod asks for next, until it is over.
pub open spec fn pod_request(collection: PodView) -> Option<RequestView> {
    match collection.stage {
        PodStageView::Preparing => Some(RequestView::CreateDir(collection.dir)),
        PodStageView::Forwarding => Some(
            RequestView::Start(
                forward_command(
                    collection.namespace,
                    collection.pod_name,
                    collection.target_port,
                ),
            ),
        ),
        PodStageView::Settling => Some(RequestView::Wait(SETTLING_SECONDS)),
        PodStageView::Collecting(inner) => collect_request(inner),
        PodStageView::Stopping(_) => Some(RequestView::Stop),
        PodStageView::Dating(_) => Some(RequestView::Clock),
        PodStageView::Recording { metadata, .. } => Some(
            RequestView::WriteMetadata {
                path: metadata_path(collection.dir),
                metadata,
            },
        ),
        PodStageView::Done(_) => None,
    }
}

/// The stage of a collection from a pod after a reply. A reply of another kind than the request
/// calls for changes nothing.
pub open spec fn pod_stage_after(collection: PodView, reply: ReplyView) -> PodStageView {
    match (collection.stage, reply) {
        (PodStageView::Preparing, ReplyView::Done) => PodStageView::Forwarding,
        (PodStageView::Preparing, ReplyView::Failed(reason)) => PodStageView::Done(
            Err(ErrorView::Io(reason)),
        ),
        (PodStageView::Forwarding, ReplyView::Done) => PodStageView::Settling,
        (PodStageView::Forwarding, ReplyView::Failed(reason)) => PodStageView::Done(
            Err(ErrorView::Kubectl("Failed to start port-forward: "@ + reason)),
        ),
        (PodStageView::Settling, ReplyView::Done) => PodStageView::Collecting(
            collect_start(
                local_url(collection.local_port),
                collection.test_name,
                collection.dir,
            ),
        ),
        (PodStageView::Collecting(inner), reply) => pod_stage_from(collect_after(inner, reply)),
        (PodStageView::Stopping(outcome), ReplyView::Done) => stopped_stage(outcome),
        (PodStageView::Stopping(outcome), ReplyView::Failed(_)) => stopped_stage(outcome),
        (PodStageView::Dating(profile), ReplyView::Clock(seconds)) => PodStageView::Recording {
            profile,
            metadata: pod_metadata(collection, seconds),
        },
        (PodStageView::Recording { profile, .. }, ReplyView::Done) => PodStageView::Done(
            Ok(profile),
        ),
        (PodStageView::Recording { .. }, ReplyView::NotJson(reason)) => PodStageView::Done(
            Err(ErrorView::Json(reason)),
        ),
        (PodStageView::Recording { .. }, ReplyView::Failed(reason)) => PodStageView::Done(
            Err(ErrorView::Io(reason)),
        ),
        (stage, _) => stage,
    }
}

/// A collection from a pod after a reply.
pub open spec fn pod_after(collection: PodView, reply: ReplyView) -> PodView {
    PodView { stage: pod_stage_after(collection, reply), ..collection }
}

/// Writes a moment as the record has it.
pub fn chrono_timestamp(seconds: Option<u64>) -> (r: String)
    ensures
        r@ == timestamp_text(seconds),
{
    let seconds: u64 = match seconds {
        Some(seconds) => seconds,
        None => 0,
    };
    concat_texts(decimal_text(seconds).as_str(), "s")
}

/// The stage that a collection through the forwarded port leads to.
fn stage_from(collection: UrlCollection) -> (r: PodStage)
    ensures
        r@ == pod_stage_from(collection@),
{
    let UrlCollection { url, test_name, dir, stage } = collection;
    match stage {
        CollectStage::Done(outcome) => PodStage::Stopping(outcome),
        stage => PodStage::Collecting(UrlCollection { url, test_name, dir, stage }),
    }
}

/// The stage once the forwarding has ended.
fn after_stop(outcome: Result<FilePath, CoverageError>) -> (r: PodStage)
    ensures
        r@ == stopped_stage(path_outcome(outcome)),
{
    match outcome {
        Ok(profile) => PodStage::Dating(profile),
        Err(error) => PodStage::Done(Err(error)),
    }
}

impl CoverageClient {
    /// Begins to collect coverage from the server at `url`.
    pub fn collect_from_url(&self, url: &str, test_name: &str) -> (r: UrlCollection)
        ensures
            r@ == collect_start(url@, test_name@, test_dir(self@, test_name@)),
    {
        UrlCollection::begin(url, test_name, self.dir_of(test_name))
    }

    /// The local port that `kubectl` forwards, where it is known. The output of `kubectl` is not
    /// read, so it never is.
    fn detect_forwarded_port(&self) -> (r: Option<u16>)
        ensures
            r is None,
    {
        None
    }

    /// Begins to collect coverage from a pod, through a port that `kubectl` forwards.
    pub fn collect_from_pod(&self, pod_name: &str, test_name: &str, target_port: u16) -> (r:
        PodCollection)
        ensures
            r@ == pod_start(self@, pod_name@, test_name@, target_port),
    {
        let local_port: u16 = match self.detect_forwarded_port() {
            Some(port) => port,
            None => target_port,
        };
        let binary = match &self.binary_path {
            Some(path) => Some(path.display()),
            None => None,
        };
        PodCollection {
            pod_name: pod_name.to_owned(),
            namespace: self.namespace.clone(),
            test_name: test_name.to_owned(),
            binary,
            dir: self.dir_of(test_name),
            target_port,
            local_port,
            stage: PodStage::Preparing,
        }
    }
}

impl PodCollection {
    /// The command that forwards the port of the pod.
    fn forwarding(&self) -> (r: CommandLine)
        ensures
            r@ == forward_command(self.namespace@, self.pod_name@, self.target_port),
    {
        let mut args: Vec<Vec<u8>> = Vec::new();
        push_text(&mut args, "port-forward");
        push_text(&mut args, "-n");
        push_text(&mut args, self.namespace.as_str());
        push_text(&mut args, concat_texts("pod/", self.pod_name.as_str()).as_str());
        push_text(
            &mut args,
            concat_texts("0:", decimal_text(self.target_port as u64).as_str()).as_str(),
        );
        proof {
            assert(byte_strings(args@) =~= forward_command(
                self.namespace@,
                self.pod_name@,
                self.target_port,
            ).args);
        }
        CommandLine { program: FilePath::from_text("kubectl"), args }
    }

    /// What is to be done next, until the collection is over.
    pub fn request(&self) -> (r: Option<Request>)
        ensures
            request_or_none(r) == pod_request(self@),
    {
        match &self.stage {
            PodStage::Preparing => Some(Request::CreateDir(self.dir.copy())),
            PodStage::Forwarding => Some(Request::Start(self.forwarding())),
            PodStage::Settling => Some(Request::Wait(SETTLING_SECONDS)),
            PodStage::Collecting(inner) => inner.request(),
            PodStage::Stopping(_) => Some(Request::Stop),
            PodStage::Dating(_) => Some(Request::Clock),
            PodStage::Recording { metadata, .. } => Some(
                Request::WriteMetadata {
                    path: self.dir.join_text("metadata.json"),
                    metadata: metadata.copy(),
                },
            ),
            PodStage::Done(_) => None,
        }
    }

    /// Goes on with what became of the request.
    pub fn resume(self, reply: Reply) -> (r: PodCollection)
        ensures
            r@ == pod_after(self@, reply@),
    {
        let PodCollection {
            pod_name,
            namespace,
            test_name,
            binary,
            dir,
            target_port,
            local_port,
            stage,
        } = self;
        let next = match (stage, reply) {
            (PodStage::Preparing, Reply::Done) => PodStage::Forwarding,
            (PodStage::Preparing, Reply::Failed(reason)) => PodStage::Done(
                Err(CoverageError::Io(reason)),
            ),
            (PodStage::Forwarding, Reply::Done) => PodStage::Settling,
            (PodStage::Forwarding, Reply::Failed(reason)) => PodStage::Done(
                Err(
                    CoverageError::Kubectl(
                        concat_texts("Failed to start port-forward: ", reason.as_str()),
                    ),
                ),
            ),
            (PodStage::Settling, Reply::Done) => {
                let url = concat_three(
                    "http://127.0.0.1:",
                    decimal_text(local_port as u64).as_str(),
                    "/coverage",
                );
                PodStage::Collecting(
                    UrlCollection::begin(url.as_str(), test_name.as_str(), dir.copy()),
                )
            },
            (PodStage::Collecting(inner), reply) => stage_from(inner.resume(reply)),
            (PodStage::Stopping(outcome), Reply::Done) => after_stop(outcome),
            (PodStage::Stopping(outcome), Reply::Failed(_)) => after_stop(outcome),
            (PodStage::Dating(profile), Reply::Clock(seconds)) => PodStage::Recording {
                profile,
                metadata: CollectionMetadata {
                    pod_name: pod_name.clone(),
                    namespace: namespace.clone(),
                    container: None,
                    test_name: test_name.clone(),
                    timestamp: chrono_timestamp(seconds),
                    binary_path: copy_text(&binary),
                },
            },
            (PodStage::Recording { profile, .. }, Reply::Done) => PodStage::Done(Ok(profile)),
            (PodStage::Recording { .. }, Reply::NotJson(reason)) => PodStage::Done(
                Err(CoverageError::Json(reason)),
            ),
            (PodStage::Recording { .. }, Reply::Failed(reason)) => PodStage::Done(
                Err(CoverageError::Io(reason)),
            ),
            (stage, _) => stage,
        };
        PodCollection {
            pod_name,
            namespace,
            test_name,
            binary,
            dir,
            target_port,
            local_port,
            stage: next,
        }
    }
}

/// What is left to do of a collection from a server.
pub open spec fn collect_left(collection: CollectView) -> Left {
    match collection.stage {
        CollectStageView::Preparing => Left { parts: 1, stages: 3, items: 0 },
        CollectStageView::Posting => Left { parts: 1, stages: 2, items: 0 },
        CollectStageView::Refused(_) => Left { parts: 1, stages: 1, items: 0 },
        CollectStageView::Reading => Left { parts: 1, stages: 1, items: 0 },
        CollectStageView::Saving { .. } => Left { parts: 1, stages: 0, items: 0 },
        CollectStageView::Done(_) => Left { parts: 0, stages: 0, items: 0 },
    }
}

/// A collection from a server asks until it is over. A reply that its request may get takes it on, so that less
/// is left to do; any other changes nothing.
pub proof fn law_collect_goes_on(collection: CollectView, reply: ReplyView)
    ensures
        collect_request(collection) is None <==> collection.stage is Done,
        collect_request(collection) is None ==> collect_after(collection, reply) == collection,
        collect_request(collection) is Some && !answers(collect_request(collection)->Some_0, reply) ==> collect_after(collection, reply) == collection,
        collect_request(collection) is Some && answers(collect_request(collection)->Some_0, reply) ==> less(
            collect_left(collect_after(collection, reply)),
            collect_left(collection),
        ),
{
}

/// Whether a collection from a pod keeps no collection through the forwarded port that is over.
pub open spec fn pod_in_order(collection: PodView) -> bool {
    match collection.stage {
        PodStageView::Collecting(inner) => !(inner.stage is Done),
        _ => true,
    }
}

/// What is left to do of a collection from a pod.
pub open spec fn pod_left(collection: PodView) -> Left {
    match collection.stage {
        PodStageView::Preparing => Left { parts: 7, stages: 0, items: 0 },
        PodStageView::Forwarding => Left { parts: 6, stages: 0, items: 0 },
        PodStageView::Settling => Left { parts: 5, stages: 0, items: 0 },
        PodStageView::Collecting(inner) => Left { parts: 4, ..collect_left(inner) },
        PodStageView::Stopping(_) => Left { parts: 3, stages: 0, items: 0 },
        PodStageView::Dating(_) => Left { parts: 2, stages: 0, items: 0 },
        PodStageView::Recording { .. } => Left { parts: 1, stages: 0, items: 0 },
        PodStageView::Done(_) => Left { parts: 0, stages: 0, items: 0 },
    }
}

/// A collection from a pod asks until it is over. A reply that its request may get takes it on, so that less
/// is left to do; any other changes nothing.
pub proof fn law_pod_goes_on(collection: PodView, reply: ReplyView)
    requires
        pod_in_order(collection),
    ensures
        pod_in_order(pod_after(collection, reply)),
        pod_request(collection) is None <==> collection.stage is Done,
        pod_request(collection) is None ==> pod_after(collection, reply) == collection,
        pod_request(collection) is Some && !answers(pod_request(collection)->Some_0, reply) ==> pod_after(collection, reply) == collection,
        pod_request(collection) is Some && answers(pod_request(collection)->Some_0, reply) ==> less(
            pod_left(pod_after(collection, reply)),
            pod_left(collection),
        ),
{
    match collection.stage {
        PodStageView::Collecting(inner) => {
            law_collect_goes_on(inner, reply);
        },
        _ => {},
    }
}

/// A collection from a server after replies, one after the other.
pub open spec fn collect_run(collection: CollectView, replies: Seq<ReplyView>) -> CollectView
    decreases replies.len(),
{
    if replies.len() == 0 {
        collection
    } else {
        collect_run(collect_after(collection, replies[0]), replies.skip(1))
    }
}

/// A file is written only for an answer of a target that runs with coverage, under the name that
/// the answer gives, and holds exactly what the base64 of the answer stands for.
pub proof fn law_only_decoded_profiles_are_written(collection: CollectView, reply: ReplyView)
    requires
        !(collection.stage is Saving),
    ensures
        collect_after(collection, reply).stage matches CollectStageView::Saving {
            path,
            contents,
        } ==> {
            &&& reply matches ReplyView::Coverage(response) && {
                &&& response.coverage_enabled
                &&& base64_decoded(response.profraw_data) == Ok::<Seq<u8>, Base64Error>(contents)
                &&& path == joined(collection.dir, utf8(response.profraw_filename))
            }
        },
{
}

/// A server that answers with a status other than of success is quoted, with its status and the
/// body of its answer, and nothing is written.
pub proof fn law_refusal_is_reported(
    url: Seq<char>,
    test_name: Seq<char>,
    dir: Seq<u8>,
    code: u16,
    body: Option<Seq<char>>,
)
    requires
        !is_success_code(code),
    ensures
        collect_run(
            collect_start(url, test_name, dir),
            seq![ReplyView::Done, ReplyView::Status(code), ReplyView::Body(body)],
        ).stage == CollectStageView::Done(Err(refusal(status_line(code), body))),
{
    let replies = seq![ReplyView::Done, ReplyView::Status(code), ReplyView::Body(body)];
    let start = collect_start(url, test_name, dir);
    reveal_with_fuel(collect_run, 4);
    assert(replies.skip(1)[0] == ReplyView::Status(code));
    assert(replies.skip(1).skip(1)[0] == ReplyView::Body(body));
}

/// Whether the port of the pod is forwarded.
pub open spec fn is_forwarding(collection: PodView) -> bool {
    collection.stage is Settling || collection.stage is Collecting || collection.stage is Stopping
}

/// The port of the pod is forwarded from where `kubectl` was started, and the collection neither
/// goes on to anything else nor ends, whatever came of it, before the forwarding has been ended.
pub proof fn law_forwarding_is_ended(collection: PodView, reply: ReplyView)
    ensures
        !is_forwarding(collection) && is_forwarding(pod_after(collection, reply)) ==> pod_request(
            collection,
        ) is Some && pod_request(collection)->Some_0 is Start && reply is Done,
        is_forwarding(collection) && !is_forwarding(pod_after(collection, reply)) ==> pod_request(
            collection,
        ) == Some(RequestView::Stop),
        pod_request(collection) == Some(RequestView::Stop) && answers(RequestView::Stop, reply)
            ==> !is_forwarding(pod_after(collection, reply)),
        collection.stage is Done ==> !is_forwarding(collection),
{
}

/// A collection from a pod after replies, one after the other.
pub open spec fn pod_run(collection: PodView, replies: Seq<ReplyView>) -> PodView
    decreases replies.len(),
{
    if replies.len() == 0 {
        collection
    } else {
        pod_run(pod_after(collection, replies[0]), replies.skip(1))
    }
}

/// Once the port is forwarded, a collection from a pod goes as the collection from the server
/// behind the local port does, reply by reply, up to its outcome; then the forwarding is ended.
pub proof fn law_pod_is_collected_through_its_port(collection: PodView, replies: Seq<ReplyView>)
    requires
        collection.stage is Settling,
        forall|n: int|
            0 <= n < replies.len() ==> !((#[trigger] collect_run(
                collect_start(
                    local_url(collection.local_port),
                    collection.test_name,
                    collection.dir,
                ),
                replies.take(n),
            )).stage is Done),
    ensures
        pod_run(collection, seq![ReplyView::Done] + replies).stage == pod_stage_from(
            collect_run(
                collect_start(
                    local_url(collection.local_port),
                    collection.test_name,
                    collection.dir,
                ),
                replies,
            ),
        ),
{
    let start = collect_start(
        local_url(collection.local_port),
        collection.test_name,
        collection.dir,
    );
    let all = seq![ReplyView::Done] + replies;
    let settled = PodView { stage: PodStageView::Collecting(start), ..collection };
    assert(all.skip(1) =~= replies);
    assert(pod_after(collection, all[0]) == settled);
    lemma_inner_collection(settled, start, replies);
}

/// While the inner collection goes on, the outer goes on with it.
proof fn lemma_inner_collection(outer: PodView, inner: CollectView, replies: Seq<ReplyView>)
    requires
        outer.stage == pod_stage_from(inner),
        forall|n: int|
            0 <= n < replies.len() ==> !((#[trigger] collect_run(inner, replies.take(n))).stage is Done),
    ensures
        pod_run(outer, replies).stage == pod_stage_from(collect_run(inner, replies)),
    decreases replies.len(),
{
    if replies.len() > 0 {
        let later = replies.skip(1);
        assert(collect_run(inner, replies.take(0)) == inner);
        let next = collect_after(inner, replies[0]);
        assert forall|n: int| 0 <= n < later.len() implies !((#[trigger] collect_run(
            next,
            later.take(n),
        )).stage is Done) by {
            assert(replies.take(n + 1).skip(1) =~= later.take(n));
            assert(collect_run(inner, replies.take(n + 1)) == collect_run(next, later.take(n)));
        }
        lemma_inner_collection(pod_after(outer, replies[0]), next, later);
    }
}

/// A profile that was collected from a pod is recorded, once the forwarding has been ended: where
/// it comes from and when it came goes to `metadata.json` beside it, and the collection ends with
/// the path of the profile.
pub proof fn law_collected_profile_is_recorded(
    collection: PodView,
    profile: Seq<u8>,
    seconds: Option<u64>,
)
    requires
        collection.stage == PodStageView::Stopping(Ok(profile)),
    ensures
        ({
            let dated = pod_after(
                pod_after(collection, ReplyView::Done),
                ReplyView::Clock(seconds),
            );
            &&& pod_request(dated) == Some(
                RequestView::WriteMetadata {
                    path: metadata_path(collection.dir),
                    metadata: pod_metadata(collection, seconds),
                },
            )
            &&& pod_after(dated, ReplyView::Done).stage == PodStageView::Done(Ok(profile))
        }),
{
}

/// A collection from a pod begins in order.
pub proof fn law_pod_begins_in_order(
    client: ClientView,
    pod_name: Seq<char>,
    test_name: Seq<char>,
    target_port: u16,
)
    ensures
        pod_in_order(pod_start(client, pod_name, test_name, target_port)),
{
}

/// A collection from a server asks for the directory of the test first, and then asks the server at
/// its address, which is told the name of the test. What cannot be done ends it.
pub proof fn law_collection_asks_the_given_server(
    client: ClientView,
    url: Seq<char>,
    test_name: Seq<char>,
    reason: Seq<char>,
)
    ensures
        ({
            let start = collect_start(url, test_name, test_dir(client, test_name));
            let posting = collect_after(start, ReplyView::Done);
            &&& collect_request(start) == Some(
                RequestView::CreateDir(joined(client.output_dir, utf8(test_name))),
            )
            &&& collect_after(start, ReplyView::Failed(reason)).stage == CollectStageView::Done(
                Err(ErrorView::Io(reason)),
            )
            &&& collect_request(posting) == Some(
                RequestView::Post { url, test_name: Some(test_name) },
            )
            &&& collect_after(posting, ReplyView::Failed(reason)).stage == CollectStageView::Done(
                Err(ErrorView::Http(reason)),
            )
        }),
{
}

/// The answer of a server is read as coverage exactly where its code is from 200 up to, and without,
/// 300. After any other the body is read as text, and the collection fails with the status and that
/// body.
pub proof fn law_only_success_is_read_as_coverage(
    url: Seq<char>,
    test_name: Seq<char>,
    dir: Seq<u8>,
    code: u16,
    body: Option<Seq<char>>,
)
    ensures
        ({
            let posting = collect_after(collect_start(url, test_name, dir), ReplyView::Done);
            let answered = collect_after(posting, ReplyView::Status(code));
            &&& collect_request(answered) == Some(RequestView::ReadCoverage) <==> 200 <= code < 300
            &&& collect_request(answered) == Some(RequestView::ReadBody) <==> !(200 <= code < 300)
            &&& !(200 <= code < 300) ==> collect_after(answered, ReplyView::Body(body)).stage
                == CollectStageView::Done(
                Err(
                    ErrorView::Other(
                        match body {
                            Some(text) => "Coverage server returned "@ + status_line(code) + ": "@
                                + text,
                            None => "Coverage server returned "@ + status_line(code) + ": "@,
                        },
                    ),
                ),
            )
        }),
{
    let line = "Coverage server returned "@ + status_line(code) + ": "@;
    assert(line + Seq::<char>::empty() =~= line);
}

/// What a server answers with is written where the target runs with coverage and the data is
/// base64: exactly the bytes that the base64 stands for, under the name that the answer gives, seen
/// from the directory of the test. The collection ends at that file. Each of the other cases has
/// an error of its own, and nothing is written.
pub proof fn law_answer_is_written_as_it_decodes(
    url: Seq<char>,
    test_name: Seq<char>,
    dir: Seq<u8>,
    code: u16,
    response: ResponseView,
    reason: Seq<char>,
)
    requires
        200 <= code < 300,
    ensures
        ({
            let posting = collect_after(collect_start(url, test_name, dir), ReplyView::Done);
            let reading = collect_after(posting, ReplyView::Status(code));
            let read = collect_after(reading, ReplyView::Coverage(response));
            let path = joined(dir, utf8(response.profraw_filename));
            &&& collect_after(reading, ReplyView::Failed(reason)).stage == CollectStageView::Done(
                Err(ErrorView::Http(reason)),
            )
            &&& !response.coverage_enabled ==> read.stage == CollectStageView::Done(
                Err(ErrorView::CoverageNotEnabled),
            )
            &&& response.coverage_enabled ==> match base64_decoded(response.profraw_data) {
                Ok(contents) => {
                    &&& collect_request(read) == Some(RequestView::WriteFile { path, contents })
                    &&& collect_after(read, ReplyView::Done).stage == CollectStageView::Done(
                        Ok(path),
                    )
                    &&& collect_after(read, ReplyView::Failed(reason)).stage
                        == CollectStageView::Done(Err(ErrorView::Io(reason)))
                },
                Err(error) => read.stage == CollectStageView::Done(Err(ErrorView::Base64(error))),
            }
        }),
{
}

/// The command that a collection from a pod starts is `kubectl port-forward`, for the pod and the
/// namespace that were given. Its last argument is `0:` with the target port behind it, in decimal
/// digits that are read back as that port.
pub proof fn law_forwarding_names_pod_and_port(
    client: ClientView,
    pod_name: Seq<char>,
    test_name: Seq<char>,
    target_port: u16,
)
    ensures
        ({
            let start = pod_start(client, pod_name, test_name, target_port);
            &&& pod_request(start) == Some(
                RequestView::CreateDir(joined(client.output_dir, utf8(test_name))),
            )
            &&& pod_request(pod_after(start, ReplyView::Done)) matches Some(
                RequestView::Start(command),
            ) && {
                &&& command.program == utf8("kubectl"@)
                &&& command.args.len() == 5
                &&& command.args[0] == utf8("port-forward"@)
                &&& command.args[1] == utf8("-n"@)
                &&& command.args[2] == utf8(client.namespace)
                &&& command.args[3] == utf8("pod/"@ + pod_name)
                &&& command.args.last() == utf8("0:"@ + decimal(target_port as nat))
                &&& parsed_u16(decimal(target_port as nat)) == Some(target_port)
            }
        }),
{
    law_decimal_is_read_back(target_port);
}

/// Collections from a pod that differ in the namespace, the pod or the target port start different
/// commands.
pub proof fn law_forwardings_are_told_apart(
    client: ClientView,
    pod_name: Seq<char>,
    target_port: u16,
    other_client: ClientView,
    other_pod_name: Seq<char>,
    other_target_port: u16,
    test_name: Seq<char>,
    other_test_name: Seq<char>,
)
    requires
        pod_request(
            pod_after(pod_start(client, pod_name, test_name, target_port), ReplyView::Done),
        ) == pod_request(
            pod_after(
                pod_start(other_client, other_pod_name, other_test_name, other_target_port),
                ReplyView::Done,
            ),
        ),
    ensures
        client.namespace == other_client.namespace,
        pod_name == other_pod_name,
        target_port == other_target_port,
{
    let args = pod_request(
        pod_after(pod_start(client, pod_name, test_name, target_port), ReplyView::Done),
    )->Some_0->Start_0.args;
    let other = pod_request(
        pod_after(
            pod_start(other_client, other_pod_name, other_test_name, other_target_port),
            ReplyView::Done,
        ),
    )->Some_0->Start_0.args;
    let pod = "pod/"@ + pod_name;
    let other_pod = "pod/"@ + other_pod_name;
    let port = "0:"@ + decimal(target_port as nat);
    let other_port = "0:"@ + decimal(other_target_port as nat);
    assert(args[2] == other[2] && args[3] == other[3] && args[4] == other[4]);
    law_bytes_tell_the_text(client.namespace, Seq::empty());
    law_bytes_tell_the_text(other_client.namespace, Seq::empty());
    law_bytes_tell_the_text(pod, Seq::empty());
    law_bytes_tell_the_text(other_pod, Seq::empty());
    law_bytes_tell_the_text(port, Seq::empty());
    law_bytes_tell_the_text(other_port, Seq::empty());
    assert(pod.skip("pod/"@.len() as int) =~= pod_name);
    assert(other_pod.skip("pod/"@.len() as int) =~= other_pod_name);
    assert(port.skip("0:"@.len() as int) =~= decimal(target_port as nat));
    assert(other_port.skip("0:"@.len() as int) =~= decimal(other_target_port as nat));
    law_numbers_are_told_apart(target_port as nat, other_target_port as nat);
}

/// Once `kubectl` is started, two seconds pass, and then coverage is asked for on the local port of
/// the same number as the target port, for the same test, in its directory. Where `kubectl` cannot
/// be started, the collection fails and nothing has to be ended.
pub proof fn law_pod_is_asked_behind_the_target_port(
    client: ClientView,
    pod_name: Seq<char>,
    test_name: Seq<char>,
    target_port: u16,
    reason: Seq<char>,
)
    ensures
        ({
            let start = pod_start(client, pod_name, test_name, target_port);
            let forwarding = pod_after(start, ReplyView::Done);
            let settling = pod_after(forwarding, ReplyView::Done);
            let settled = pod_after(settling, ReplyView::Done);
            let posting = pod_after(settled, ReplyView::Done);
            &&& pod_after(start, ReplyView::Failed(reason)).stage == PodStageView::Done(
                Err(ErrorView::Io(reason)),
            )
            &&& pod_after(forwarding, ReplyView::Failed(reason)).stage == PodStageView::Done(
                Err(ErrorView::Kubectl("Failed to start port-forward: "@ + reason)),
            )
            &&& pod_request(settling) == Some(RequestView::Wait(2))
            &&& pod_request(settled) == Some(
                RequestView::CreateDir(joined(client.output_dir, utf8(test_name))),
            )
            &&& pod_request(posting) == Some(
                RequestView::Post {
                    url: "http://127.0.0.1:"@ + decimal(target_port as nat) + "/coverage"@,
                    test_name: Some(test_name),
                },
            )
            &&& settled.stage matches PodStageView::Collecting(inner) && inner == collect_start(
                "http://127.0.0.1:"@ + decimal(target_port as nat) + "/coverage"@,
                test_name,
                test_dir(client, test_name),
            )
        }),
{
}

/// A collection from a pod keeps, whatever the replies, what its record says of it.
proof fn lemma_pod_keeps_its_origin(collection: PodView, replies: Seq<ReplyView>)
    ensures
        pod_run(collection, replies) == (PodView {
            stage: pod_run(collection, replies).stage,
            ..collection
        }),
    decreases replies.len(),
{
    if replies.len() > 0 {
        lemma_pod_keeps_its_origin(pod_after(collection, replies[0]), replies.skip(1));
    }
}

/// Whatever the replies, what is recorded of a collection from a pod is true of it: the pod, the
/// namespace and the test that were given, and the binary of the client, as it is shown. The record
/// goes to `metadata.json` in the directory of the test.
pub proof fn law_record_says_where_the_profile_comes_from(
    client: ClientView,
    pod_name: Seq<char>,
    test_name: Seq<char>,
    target_port: u16,
    replies: Seq<ReplyView>,
    seconds: Option<u64>,
)
    requires
        pod_run(pod_start(client, pod_name, test_name, target_port), replies).stage is Dating,
    ensures
        ({
            let dating = pod_run(pod_start(client, pod_name, test_name, target_port), replies);
            let dated = pod_after(dating, ReplyView::Clock(seconds));
            &&& pod_request(dating) == Some(RequestView::Clock)
            &&& pod_request(dated) matches Some(RequestView::WriteMetadata { path, metadata }) && {
                &&& path == joined(
                    joined(client.output_dir, utf8(test_name)),
                    utf8("metadata.json"@),
                )
                &&& metadata.pod_name == pod_name
                &&& metadata.namespace == client.namespace
                &&& metadata.container is None
                &&& metadata.test_name == test_name
                &&& metadata.binary_path is Some <==> client.binary_path is Some
                &&& client.binary_path matches Some(binary) ==> metadata.binary_path == Some(
                    shown(binary),
                )
                &&& seconds matches Some(seconds) ==> metadata.timestamp == decimal(seconds as nat)
                    + "s"@
                &&& seconds is None ==> metadata.timestamp == "0s"@
            }
        }),
{
    lemma_pod_keeps_its_origin(pod_start(client, pod_name, test_name, target_port), replies);
    reveal_strlit("0s");
    reveal_strlit("s");
    assert(decimal(0) =~= seq!['0']);
    assert(decimal(0) + "s"@ =~= "0s"@);
}

/// A collection from a pod gives back what came of asking its server, once the forwarding is ended,
/// whether or not that went well: the error as it was, or the path of the profile, where the record
/// could be written as well.
pub proof fn law_outcome_of_the_server_is_passed_on(
    collection: PodView,
    outcome: Result<Seq<u8>, ErrorView>,
    seconds: Option<u64>,
    reason: Seq<char>,
)
    requires
        collection.stage == PodStageView::Stopping(outcome),
    ensures
        pod_request(collection) == Some(RequestView::Stop),
        pod_after(collection, ReplyView::Failed(reason)) == pod_after(collection, ReplyView::Done),
        outcome matches Err(error) ==> pod_after(collection, ReplyView::Done).stage
            == PodStageView::Done(Err(error)),
        outcome matches Ok(profile) ==> {
            let dating = pod_after(collection, ReplyView::Done);
            let dated = pod_after(dating, ReplyView::Clock(seconds));
            &&& pod_request(dating) == Some(RequestView::Clock)
            &&& pod_after(dated, ReplyView::Done).stage == PodStageView::Done(Ok(profile))
            &&& pod_after(dated, ReplyView::NotJson(reason)).stage == PodStageView::Done(
                Err(ErrorView::Json(reason)),
            )
            &&& pod_after(dated, ReplyView::Failed(reason)).stage == PodStageView::Done(
                Err(ErrorView::Io(reason)),
            )
        },
{
}

/// While coverage is asked for, a collection from a pod asks for what the collection from its server
/// does, and goes on as that does.
pub proof fn law_pod_follows_its_server(
    collection: PodView,
    inner: CollectView,
    reply: ReplyView,
)
    requires
        collection.stage == PodStageView::Collecting(inner),
    ensures
        pod_request(collection) == collect_request(inner),
        match collect_after(inner, reply).stage {
            CollectStageView::Done(outcome) => pod_after(collection, reply).stage
                == PodStageView::Stopping(outcome),
            _ => pod_after(collection, reply).stage == PodStageView::Collecting(
                collect_after(inner, reply),
            ),
        },
{
}

} // verus!
