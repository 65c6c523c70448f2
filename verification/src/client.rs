//! The client: where it collects coverage from, and how it reports it.

use crate::path::{joined, law_names_are_told_apart, lemma_first_byte, path_or_none, FilePath};
use crate::request::RequestView;
use crate::text::{law_bytes_tell_the_text, texts, utf8};
use crate::tool_search::{
    find_llvm_tool, search_found, search_request, search_start, SearchStage, SearchStageView,
    SearchView, ToolSearch,
};
use vstd::prelude::*;
use vstd::string::*;

verus! {

/// A client that collects coverage from instrumented applications.
#[derive(Debug, PartialEq, Eq)]
pub struct CoverageClient {
    pub(crate) namespace: String,
    pub(crate) output_dir: FilePath,
    pub(crate) source_dir: Option<FilePath>,
    pub(crate) binary_path: Option<FilePath>,
    pub(crate) filters: Vec<String>,
    pub(crate) llvm_profdata_path: Option<FilePath>,
    pub(crate) llvm_cov_path: Option<FilePath>,
}

/// The model of a [`CoverageClient`].
#[verifier::ext_equal]
pub struct ClientView {
    /// The Kubernetes namespace.
    pub namespace: Seq<char>,
    /// The directory below which every test has one of its own.
    pub output_dir: Seq<u8>,
    /// The local source directory for reports.
    pub source_dir: Option<Seq<u8>>,
    /// The instrumented binary.
    pub binary_path: Option<Seq<u8>>,
    /// Patterns of the file names that reports leave out.
    pub filters: Seq<Seq<char>>,
    /// A configured `llvm-profdata`.
    pub llvm_profdata_path: Option<Seq<u8>>,
    /// A configured `llvm-cov`.
    pub llvm_cov_path: Option<Seq<u8>>,
}

impl View for CoverageClient {
    type V = ClientView;

    open(crate) spec fn view(&self) -> ClientView {
        ClientView {
            namespace: self.namespace@,
            output_dir: self.output_dir@,
            source_dir: path_or_none(self.source_dir),
            binary_path: path_or_none(self.binary_path),
            filters: texts(self.filters@),
            llvm_profdata_path: path_or_none(self.llvm_profdata_path),
            llvm_cov_path: path_or_none(self.llvm_cov_path),
        }
    }
}

/// The directory of a test.
pub open spec fn test_dir(client: ClientView, test_name: Seq<char>) -> Seq<u8> {
    joined(client.output_dir, utf8(test_name))
}

impl CoverageClient {
    /// A client for a namespace, with its output below `output_dir`. Reports leave out the
    /// coverage server itself.
    pub fn new(namespace: &str, output_dir: FilePath) -> (r: CoverageClient)
        ensures
            r@ == (ClientView {
                namespace: namespace@,
                output_dir: output_dir@,
                source_dir: None,
                binary_path: None,
                filters: seq!["coverage_server"@],
                llvm_profdata_path: None,
                llvm_cov_path: None,
            }),
    {
        let mut filters: Vec<String> = Vec::new();
        filters.push("coverage_server".to_owned());
        proof {
            assert(texts(filters@) =~= seq!["coverage_server"@]);
        }
        CoverageClient {
            namespace: namespace.to_owned(),
            output_dir,
            source_dir: None,
            binary_path: None,
            filters,
            llvm_profdata_path: None,
            llvm_cov_path: None,
        }
    }

    /// Sets the local source directory for path remapping in reports.
    pub fn set_source_dir(&mut self, path: FilePath) -> (r: &mut CoverageClient)
        ensures
            r@ == (ClientView { source_dir: Some(path@), ..old(self)@ }),
            *final(self) == *final(r),
    {
        self.source_dir = Some(path);
        self
    }

    /// Sets the path of the instrumented binary, which reports need.
    pub fn set_binary_path(&mut self, path: FilePath) -> (r: &mut CoverageClient)
        ensures
            r@ == (ClientView { binary_path: Some(path@), ..old(self)@ }),
            *final(self) == *final(r),
    {
        self.binary_path = Some(path);
        self
    }

    /// Sets the path of `llvm-profdata`, which is then not searched for.
    pub fn set_llvm_profdata_path(&mut self, path: FilePath) -> (r: &mut CoverageClient)
        ensures
            r@ == (ClientView { llvm_profdata_path: Some(path@), ..old(self)@ }),
            *final(self) == *final(r),
    {
        self.llvm_profdata_path = Some(path);
        self
    }

    /// Sets the path of `llvm-cov`, which is then not searched for.
    pub fn set_llvm_cov_path(&mut self, path: FilePath) -> (r: &mut CoverageClient)
        ensures
            r@ == (ClientView { llvm_cov_path: Some(path@), ..old(self)@ }),
            *final(self) == *final(r),
    {
        self.llvm_cov_path = Some(path);
        self
    }

    /// Adds a pattern of file names that reports leave out.
    pub fn add_filter(&mut self, pattern: &str) -> (r: &mut CoverageClient)
        ensures
            r@ == (ClientView { filters: old(self)@.filters.push(pattern@), ..old(self)@ }),
            *final(self) == *final(r),
    {
        let ghost before = self.filters@;
        self.filters.push(pattern.to_owned());
        proof {
            assert(texts(self.filters@) =~= texts(before).push(pattern@));
        }
        self
    }

    /// Sets the patterns of file names that reports leave out, in place of all there were.
    pub fn set_filters(&mut self, patterns: Vec<String>) -> (r: &mut CoverageClient)
        ensures
            r@ == (ClientView { filters: texts(patterns@), ..old(self)@ }),
            *final(self) == *final(r),
    {
        self.filters = patterns;
        self
    }

    /// The directory of a test.
    pub(crate) fn dir_of(&self, test_name: &str) -> (r: FilePath)
        ensures
            r@ == test_dir(self@, test_name@),
    {
        self.output_dir.join_text(test_name)
    }

    /// The search for `llvm-profdata`, which is over where its path is set.
    pub fn find_llvm_profdata(&self) -> (r: ToolSearch)
        ensures
            r@ == tool_lookup("llvm-profdata"@, self@.llvm_profdata_path),
    {
        look_up_tool("llvm-profdata", &self.llvm_profdata_path)
    }

    /// The search for `llvm-cov`, which is over where its path is set.
    pub fn find_llvm_cov(&self) -> (r: ToolSearch)
        ensures
            r@ == tool_lookup("llvm-cov"@, self@.llvm_cov_path),
    {
        look_up_tool("llvm-cov", &self.llvm_cov_path)
    }
}

/// The search for a tool whose path may be configured.
pub open spec fn tool_lookup(name: Seq<char>, configured: Option<Seq<u8>>) -> SearchView {
    match configured {
        Some(path) => search_found(name, path),
        None => search_start(name),
    }
}

/// The search for a tool whose path may be configured.
fn look_up_tool(name: &str, configured: &Option<FilePath>) -> (r: ToolSearch)
    ensures
        r@ == tool_lookup(name@, path_or_none(*configured)),
{
    match configured {
        Some(path) => ToolSearch {
            name: name.to_owned(),
            stage: SearchStage::Done(Ok(path.copy())),
        },
        None => find_llvm_tool(name),
    }
}

/// Every test has a directory of its own: its name, seen from the output directory. Nothing else of
/// the client has a part in it.
pub proof fn law_every_test_has_its_own_directory(
    client: ClientView,
    other_client: ClientView,
    test_name: Seq<char>,
    other_name: Seq<char>,
)
    requires
        client.output_dir == other_client.output_dir,
        test_name.len() > 0 ==> test_name[0] != '/',
        other_name.len() > 0 ==> other_name[0] != '/',
    ensures
        test_dir(client, test_name) == joined(client.output_dir, utf8(test_name)),
        test_dir(client, test_name) == test_dir(other_client, other_name) <==> test_name
            == other_name,
{
    if test_name.len() > 0 {
        lemma_first_byte(test_name);
    }
    if other_name.len() > 0 {
        lemma_first_byte(other_name);
    }
    if test_dir(client, test_name) == test_dir(other_client, other_name) {
        law_names_are_told_apart(client.output_dir, utf8(test_name), utf8(other_name));
        law_bytes_tell_the_text(test_name, Seq::empty());
        law_bytes_tell_the_text(other_name, Seq::empty());
    }
}

/// A tool whose path is set is not searched for; any other is looked for by its own name first.
pub proof fn law_tool_that_is_set_is_taken(name: Seq<char>, path: Seq<u8>)
    ensures
        tool_lookup(name, Some(path)).stage == SearchStageView::Done(Ok(path)),
        search_request(tool_lookup(name, Some(path))) is None,
        search_request(tool_lookup(name, None)) == Some(RequestView::Locate(name)),
        tool_lookup(name, None) == search_start(name),
{
}

} // verus!
