//! What an operation of the client asks of its surroundings, and what it is told.
//!
//! An operation touches no file, program or network itself. It names the one thing that is to be
//! done next as a [`Request`] and goes on from the [`Reply`].

use crate::error::{CoverageError, ErrorView};
use crate::path::{copy_bytes, path_or_none, paths, FilePath};
use crate::status::HttpStatus;
use crate::text::{copy_text, text_bytes, text_or_none, utf8};
use vstd::prelude::*;

verus! {

/// The list of byte strings that `list` holds.
pub open spec fn byte_strings(list: Seq<Vec<u8>>) -> Seq<Seq<u8>> {
    Seq::new(list.len(), |i: int| list[i]@)
}

/// A copy of a list of byte strings.
pub(crate) fn copy_byte_strings(list: &Vec<Vec<u8>>) -> (r: Vec<Vec<u8>>)
    ensures
        byte_strings(r@) == byte_strings(list@),
{
    let mut r: Vec<Vec<u8>> = Vec::new();
    let mut i: usize = 0;
    while i < list.len()
        invariant
            i <= list@.len(),
            r@.len() == i,
            forall|k: int| 0 <= k < i ==> (#[trigger] r@[k])@ == list@[k]@,
        decreases list@.len() - i,
    {
        r.push(copy_bytes(&list[i]));
        i = i + 1;
    }
    proof {
        assert(byte_strings(r@) =~= byte_strings(list@));
    }
    r
}

/// Puts a text behind the arguments.
pub(crate) fn push_text(args: &mut Vec<Vec<u8>>, text: &str)
    ensures
        byte_strings(final(args)@) == byte_strings(old(args)@).push(utf8(text@)),
{
    let ghost before = args@;
    args.push(text_bytes(text));
    proof {
        assert(byte_strings(args@) =~= byte_strings(before).push(utf8(text@)));
    }
}

/// Puts a path behind the arguments.
pub(crate) fn push_path(args: &mut Vec<Vec<u8>>, path: &FilePath)
    ensures
        byte_strings(final(args)@) == byte_strings(old(args)@).push(path@),
{
    let ghost before = args@;
    args.push(copy_bytes(&path.bytes));
    proof {
        assert(byte_strings(args@) =~= byte_strings(before).push(path@));
    }
}

/// A program and its arguments.
#[derive(Debug, PartialEq, Eq)]
pub struct CommandLine {
    pub program: FilePath,
    pub args: Vec<Vec<u8>>,
}

/// The model of a [`CommandLine`].
#[verifier::ext_equal]
pub struct CommandView {
    pub program: Seq<u8>,
    pub args: Seq<Seq<u8>>,
}

impl View for CommandLine {
    type V = CommandView;

    open spec fn view(&self) -> CommandView {
        CommandView { program: self.program@, args: byte_strings(self.args@) }
    }
}

/// What a program that ran to its end left behind.
#[derive(Debug, PartialEq, Eq)]
pub struct Output {
    /// Whether it ended in success.
    pub success: bool,
    pub stdout: Vec<u8>,
    pub stderr: Vec<u8>,
}

/// The model of an [`Output`].
#[verifier::ext_equal]
pub struct OutputView {
    pub success: bool,
    pub stdout: Seq<u8>,
    pub stderr: Seq<u8>,
}

impl View for Output {
    type V = OutputView;

    open spec fn view(&self) -> OutputView {
        OutputView { success: self.success, stdout: self.stdout@, stderr: self.stderr@ }
    }
}

/// The answer of a coverage server, as the client reads it.
#[derive(Debug, PartialEq, Eq)]
pub struct CoverageResponse {
    /// The name for the file with the profile data.
    pub profraw_filename: String,
    /// The profile data, in base64.
    pub profraw_data: String,
    pub timestamp: u64,
    /// Whether the target runs with coverage.
    pub coverage_enabled: bool,
}

/// The model of a [`CoverageResponse`].
#[verifier::ext_equal]
pub struct ResponseView {
    pub profraw_filename: Seq<char>,
    pub profraw_data: Seq<char>,
    pub timestamp: u64,
    pub coverage_enabled: bool,
}

impl View for CoverageResponse {
    type V = ResponseView;

    open spec fn view(&self) -> ResponseView {
        ResponseView {
            profraw_filename: self.profraw_filename@,
            profraw_data: self.profraw_data@,
            timestamp: self.timestamp,
            coverage_enabled: self.coverage_enabled,
        }
    }
}

/// Where collected profile data comes from.
#[derive(Debug, PartialEq, Eq)]
pub struct CollectionMetadata {
    pub pod_name: String,
    pub namespace: String,
    pub container: Option<String>,
    pub test_name: String,
    pub timestamp: String,
    pub binary_path: Option<String>,
}

/// The model of a [`CollectionMetadata`].
#[verifier::ext_equal]
pub struct MetadataView {
    pub pod_name: Seq<char>,
    pub namespace: Seq<char>,
    pub container: Option<Seq<char>>,
    pub test_name: Seq<char>,
    pub timestamp: Seq<char>,
    pub binary_path: Option<Seq<char>>,
}

impl View for CollectionMetadata {
    type V = MetadataView;

    open spec fn view(&self) -> MetadataView {
        MetadataView {
            pod_name: self.pod_name@,
            namespace: self.namespace@,
            container: text_or_none(self.container),
            test_name: self.test_name@,
            timestamp: self.timestamp@,
            binary_path: text_or_none(self.binary_path),
        }
    }
}

impl CollectionMetadata {
    /// A copy of the record.
    pub(crate) fn copy(&self) -> (r: CollectionMetadata)
        ensures
            r@ == self@,
    {
        CollectionMetadata {
            pod_name: self.pod_name.clone(),
            namespace: self.namespace.clone(),
            container: copy_text(&self.container),
            test_name: self.test_name.clone(),
            timestamp: self.timestamp.clone(),
            binary_path: copy_text(&self.binary_path),
        }
    }
}

/// One thing to be done outside the library. Behind each kind stand the replies that it may get;
/// where it may fail, [`Reply::Failed`] says so.
#[derive(Debug, PartialEq, Eq)]
pub enum Request {
    /// Create a directory with all that lead to it: [`Reply::Done`].
    CreateDir(FilePath),
    /// List a directory: [`Reply::Entries`].
    ListDir(FilePath),
    /// Write a file: [`Reply::Done`].
    WriteFile { path: FilePath, contents: Vec<u8> },
    /// Write a record to a file, as JSON with indentation: [`Reply::Done`], or
    /// [`Reply::NotJson`].
    WriteMetadata { path: FilePath, metadata: CollectionMetadata },
    /// Read a file as text: [`Reply::Text`].
    ReadFile(FilePath),
    /// See whether anything has this path: [`Reply::Exists`].
    Exists(FilePath),
    /// Look for a program by its name: [`Reply::Located`].
    Locate(String),
    /// Read an environment variable: [`Reply::Variable`].
    Variable(String),
    /// Name the machine's architecture, as Rust does: [`Reply::Text`].
    Architecture,
    /// Run a program to its end: [`Reply::Ran`].
    Run(CommandLine),
    /// Start a program, and let it run in the background: [`Reply::Done`].
    Start(CommandLine),
    /// End the program in the background; it is as well if that fails: [`Reply::Done`].
    Stop,
    /// Let so many seconds pass: [`Reply::Done`].
    Wait(u64),
    /// Send a POST request; where a test name is given, with the JSON object that holds it under
    /// `test_name` as its body: [`Reply::Status`].
    Post { url: String, test_name: Option<String> },
    /// Read the body of the answer as text: [`Reply::Body`].
    ReadBody,
    /// Read the body of the answer as JSON: [`Reply::Coverage`].
    ReadCoverage,
    /// Read the clock: [`Reply::Clock`].
    Clock,
    /// Print a text: [`Reply::Done`].
    Print(String),
}

/// The model of a [`Request`].
#[verifier::ext_equal]
pub enum RequestView {
    CreateDir(Seq<u8>),
    ListDir(Seq<u8>),
    WriteFile { path: Seq<u8>, contents: Seq<u8> },
    WriteMetadata { path: Seq<u8>, metadata: MetadataView },
    ReadFile(Seq<u8>),
    Exists(Seq<u8>),
    Locate(Seq<char>),
    Variable(Seq<char>),
    Architecture,
    Run(CommandView),
    Start(CommandView),
    Stop,
    Wait(u64),
    Post { url: Seq<char>, test_name: Option<Seq<char>> },
    ReadBody,
    ReadCoverage,
    Clock,
    Print(Seq<char>),
}

impl View for Request {
    type V = RequestView;

    open spec fn view(&self) -> RequestView {
        match *self {
            Request::CreateDir(path) => RequestView::CreateDir(path@),
            Request::ListDir(path) => RequestView::ListDir(path@),
            Request::WriteFile { path, contents } => RequestView::WriteFile {
                path: path@,
                contents: contents@,
            },
            Request::WriteMetadata { path, metadata } => RequestView::WriteMetadata {
                path: path@,
                metadata: metadata@,
            },
            Request::ReadFile(path) => RequestView::ReadFile(path@),
            Request::Exists(path) => RequestView::Exists(path@),
            Request::Locate(name) => RequestView::Locate(name@),
            Request::Variable(name) => RequestView::Variable(name@),
            Request::Architecture => RequestView::Architecture,
            Request::Run(command) => RequestView::Run(command@),
            Request::Start(command) => RequestView::Start(command@),
            Request::Stop => RequestView::Stop,
            Request::Wait(seconds) => RequestView::Wait(seconds),
            Request::Post { url, test_name } => RequestView::Post {
                url: url@,
                test_name: text_or_none(test_name),
            },
            Request::ReadBody => RequestView::ReadBody,
            Request::ReadCoverage => RequestView::ReadCoverage,
            Request::Clock => RequestView::Clock,
            Request::Print(text) => RequestView::Print(text@),
        }
    }
}

/// The view of a request that may be missing.
pub open spec fn request_or_none(request: Option<Request>) -> Option<RequestView> {
    match request {
        Some(request) => Some(request@),
        None => None,
    }
}

/// What became of a [`Request`].
#[derive(Debug, PartialEq, Eq)]
pub enum Reply {
    /// It was done.
    Done,
    /// It could not be done, for this reason.
    Failed(String),
    /// The record could not be written as JSON, for this reason.
    NotJson(String),
    /// The names in the directory, in the order of the listing; one that could not be read is
    /// missing.
    Entries(Vec<Option<FilePath>>),
    /// Whether the path exists.
    Exists(bool),
    /// Where the program is.
    Located(Option<FilePath>),
    /// The variable, if it is set to a text.
    Variable(Option<String>),
    /// The text that was asked for.
    Text(String),
    /// The program ran to its end.
    Ran(Output),
    /// The server answered with this status.
    Status(HttpStatus),
    /// The body, if it could be read.
    Body(Option<String>),
    /// The body, read as JSON.
    Coverage(CoverageResponse),
    /// The whole seconds since the Unix epoch, unless the clock stands before it.
    Clock(Option<u64>),
}

/// The model of a [`Reply`].
#[verifier::ext_equal]
pub enum ReplyView {
    Done,
    Failed(Seq<char>),
    NotJson(Seq<char>),
    Entries(Seq<Option<Seq<u8>>>),
    Exists(bool),
    Located(Option<Seq<u8>>),
    Variable(Option<Seq<char>>),
    Text(Seq<char>),
    Ran(OutputView),
    Status(u16),
    Body(Option<Seq<char>>),
    Coverage(ResponseView),
    Clock(Option<u64>),
}

/// Whether a reply is one that a request may get.
pub open spec fn answers(request: RequestView, reply: ReplyView) -> bool {
    match request {
        RequestView::CreateDir(_) => reply is Done || reply is Failed,
        RequestView::ListDir(_) => reply is Entries || reply is Failed,
        RequestView::WriteFile { .. } => reply is Done || reply is Failed,
        RequestView::WriteMetadata { .. } => reply is Done || reply is Failed || reply is NotJson,
        RequestView::ReadFile(_) => reply is Text || reply is Failed,
        RequestView::Exists(_) => reply is Exists,
        RequestView::Locate(_) => reply is Located,
        RequestView::Variable(_) => reply is Variable,
        RequestView::Architecture => reply is Text,
        RequestView::Run(_) => reply is Ran || reply is Failed,
        RequestView::Start(_) => reply is Done || reply is Failed,
        RequestView::Stop => reply is Done || reply is Failed,
        RequestView::Wait(_) => reply is Done,
        RequestView::Post { .. } => reply is Status || reply is Failed,
        RequestView::ReadBody => reply is Body,
        RequestView::ReadCoverage => reply is Coverage || reply is Failed,
        RequestView::Clock => reply is Clock,
        RequestView::Print(_) => reply is Done,
    }
}

/// What is left to do of an operation: its parts, the stages of the part at hand, and what the
/// stage at hand goes through.
pub struct Left {
    pub parts: nat,
    pub stages: nat,
    pub items: nat,
}

/// Whether less is left than before.
pub open spec fn less(after: Left, before: Left) -> bool {
    ||| after.parts < before.parts
    ||| after.parts == before.parts && after.stages < before.stages
    ||| after.parts == before.parts && after.stages == before.stages && after.items < before.items
}

/// The views of the names in a directory.
pub open spec fn entries_view(entries: Seq<Option<FilePath>>) -> Seq<Option<Seq<u8>>> {
    Seq::new(entries.len(), |i: int| path_or_none(entries[i]))
}

impl View for Reply {
    type V = ReplyView;

    open spec fn view(&self) -> ReplyView {
        match *self {
            Reply::Done => ReplyView::Done,
            Reply::Failed(reason) => ReplyView::Failed(reason@),
            Reply::NotJson(reason) => ReplyView::NotJson(reason@),
            Reply::Entries(entries) => ReplyView::Entries(entries_view(entries@)),
            Reply::Exists(there) => ReplyView::Exists(there),
            Reply::Located(path) => ReplyView::Located(path_or_none(path)),
            Reply::Variable(value) => ReplyView::Variable(text_or_none(value)),
            Reply::Text(text) => ReplyView::Text(text@),
            Reply::Ran(output) => ReplyView::Ran(output@),
            Reply::Status(status) => ReplyView::Status(status@),
            Reply::Body(body) => ReplyView::Body(text_or_none(body)),
            Reply::Coverage(response) => ReplyView::Coverage(response@),
            Reply::Clock(seconds) => ReplyView::Clock(seconds),
        }
    }
}

/// The names of a listing that could be read, in order.
pub open spec fn readable(entries: Seq<Option<Seq<u8>>>) -> Seq<Seq<u8>>
    decreases entries.len(),
{
    if entries.len() == 0 {
        Seq::empty()
    } else {
        match entries.last() {
            Some(name) => readable(entries.drop_last()).push(name),
            None => readable(entries.drop_last()),
        }
    }
}

/// Takes the names that could be read out of a listing.
pub(crate) fn readable_names(entries: &Vec<Option<FilePath>>) -> (r: Vec<FilePath>)
    ensures
        paths(r@) == readable(entries_view(entries@)),
{
    let mut r: Vec<FilePath> = Vec::new();
    let ghost all = entries_view(entries@);
    let mut i: usize = 0;
    proof {
        assert(paths(r@) =~= readable(all.take(0)));
    }
    while i < entries.len()
        invariant
            i <= entries@.len(),
            all == entries_view(entries@),
            paths(r@) == readable(all.take(i as int)),
        decreases entries@.len() - i,
    {
        proof {
            assert(all.take(i + 1).drop_last() =~= all.take(i as int));
            assert(all.take(i + 1).last() == path_or_none(entries@[i as int]));
        }
        let ghost before = r@;
        match &entries[i] {
            Some(name) => {
                r.push(name.copy());
                proof {
                    assert(paths(r@) =~= paths(before).push(name@));
                }
            },
            None => {},
        }
        i = i + 1;
    }
    proof {
        assert(all.take(i as int) =~= all);
    }
    r
}

/// The view of the outcome of an operation that ends in a path.
pub open spec fn path_outcome(outcome: Result<FilePath, CoverageError>) -> Result<
    Seq<u8>,
    ErrorView,
> {
    match outcome {
        Ok(path) => Ok(path@),
        Err(error) => Err(error@),
    }
}

/// The view of the outcome of an operation that ends in a text.
pub open spec fn text_outcome(outcome: Result<String, CoverageError>) -> Result<
    Seq<char>,
    ErrorView,
> {
    match outcome {
        Ok(text) => Ok(text@),
        Err(error) => Err(error@),
    }
}

/// The view of the outcome of an operation that has only success or failure.
pub open spec fn unit_outcome(outcome: Result<(), CoverageError>) -> Result<(), ErrorView> {
    match outcome {
        Ok(_) => Ok(()),
        Err(error) => Err(error@),
    }
}

/// One more entry of a listing adds its name behind the others, where it could be read, and else
/// nothing.
pub proof fn law_listing_goes_entry_by_entry(entries: Seq<Option<Seq<u8>>>, name: Seq<u8>)
    ensures
        readable(Seq::empty()) == Seq::<Seq<u8>>::empty(),
        readable(entries.push(Some(name))) == readable(entries).push(name),
        readable(entries.push(None)) == readable(entries),
{
    assert(entries.push(Some(name)).drop_last() =~= entries);
    assert(entries.push(None).drop_last() =~= entries);
}

/// The arguments of a command and the entries of a listing are seen one by one, in their order.
pub proof fn law_arguments_and_entries_are_seen_one_by_one(
    args: Seq<Vec<u8>>,
    entries: Seq<Option<FilePath>>,
    i: int,
)
    ensures
        byte_strings(args).len() == args.len(),
        entries_view(entries).len() == entries.len(),
        0 <= i < args.len() ==> byte_strings(args)[i] == args[i]@,
        0 <= i < entries.len() ==> (entries[i] is Some <==> entries_view(entries)[i] is Some),
        0 <= i < entries.len() && entries[i] is Some ==> entries_view(entries)[i] == Some(
            entries[i]->Some_0.bytes@,
        ),
{
}

} // verus!
