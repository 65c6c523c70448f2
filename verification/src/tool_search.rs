//! The search for an LLVM tool.

use crate::error::{CoverageError, ErrorView};
use crate::path::{joined, paths, FilePath};
use crate::request::{
    answers, less, path_outcome, readable, readable_names, request_or_none, Left, Reply, ReplyView,
    Request, RequestView,
};
use crate::text::{
    concat_texts, concat_three, decimal, decimal_text, law_first_occurrence_is_replaced,
    law_text_without_occurrence_is_kept, occurs_at, replace_text, replaced, utf8,
};
use vstd::prelude::*;
use vstd::string::*;

verus! {

/// The newest LLVM version that is tried by name.
pub const NEWEST_VERSION: u8 = 20;

/// The oldest LLVM version that is tried by name.
pub const OLDEST_VERSION: u8 = 14;

/// How far a search has come.
#[derive(Debug, PartialEq, Eq)]
pub enum SearchStage {
    /// The tool is looked for by its own name.
    Plain,
    /// The tool is looked for by its name with this version behind it.
    Versioned(u8),
    /// The home of rustup is asked for.
    Home,
    /// The toolchains in this directory are listed.
    Listing(FilePath),
    /// The architecture is asked for; these are the toolchains.
    Toolchains(Vec<FilePath>),
    /// This path is tried, and the rest after it.
    Probing { current: FilePath, rest: Vec<FilePath> },
    /// The tool is looked for under its `cargo-binutils` name.
    Binutils,
    /// The search is over.
    Done(Result<FilePath, CoverageError>),
}

/// The model of a [`SearchStage`].
#[verifier::ext_equal]
pub enum SearchStageView {
    Plain,
    Versioned(u8),
    Home,
    Listing(Seq<u8>),
    Toolchains(Seq<Seq<u8>>),
    Probing { current: Seq<u8>, rest: Seq<Seq<u8>> },
    Binutils,
    Done(Result<Seq<u8>, ErrorView>),
}

impl View for SearchStage {
    type V = SearchStageView;

    open spec fn view(&self) -> SearchStageView {
        match *self {
            SearchStage::Plain => SearchStageView::Plain,
            SearchStage::Versioned(version) => SearchStageView::Versioned(version),
            SearchStage::Home => SearchStageView::Home,
            SearchStage::Listing(dir) => SearchStageView::Listing(dir@),
            SearchStage::Toolchains(dirs) => SearchStageView::Toolchains(paths(dirs@)),
            SearchStage::Probing { current, rest } => SearchStageView::Probing {
                current: current@,
                rest: paths(rest@),
            },
            SearchStage::Binutils => SearchStageView::Binutils,
            SearchStage::Done(outcome) => SearchStageView::Done(path_outcome(outcome)),
        }
    }
}

/// A search for an LLVM tool.
#[derive(Debug, PartialEq, Eq)]
pub struct ToolSearch {
    /// The name of the tool.
    pub name: String,
    pub stage: SearchStage,
}

/// The model of a [`ToolSearch`].
#[verifier::ext_equal]
pub struct SearchView {
    pub name: Seq<char>,
    pub stage: SearchStageView,
}

impl View for ToolSearch {
    type V = SearchView;

    open spec fn view(&self) -> SearchView {
        SearchView { name: self.name@, stage: self.stage@ }
    }
}

/// The name of a tool of one LLVM version, such as `llvm-cov-17`.
pub open spec fn versioned_name(name: Seq<char>, version: u8) -> Seq<char> {
    name + "-"@ + decimal(version as nat)
}

/// The name of a tool in `cargo-binutils`, such as `rust-cov`.
pub open spec fn binutils_name(name: Seq<char>) -> Seq<char> {
    replaced(name, "llvm-"@, "rust-"@)
}

/// Where the toolchains are, below the home of rustup.
pub open spec fn toolchains_dir(home: Seq<char>) -> Seq<u8> {
    joined(utf8(home), utf8("toolchains"@))
}

/// Where a toolchain has a tool.
pub open spec fn tool_path(toolchain: Seq<u8>, arch: Seq<char>, name: Seq<char>) -> Seq<u8> {
    joined(
        joined(joined(toolchain, utf8("lib"@)), utf8("rustlib"@)),
        utf8(arch + "-unknown-linux-gnu/bin/"@ + name),
    )
}

/// The toolchains with these names.
pub open spec fn toolchains(dir: Seq<u8>, names: Seq<Seq<u8>>) -> Seq<Seq<u8>> {
    Seq::new(names.len(), |i: int| joined(dir, names[i]))
}

/// Where each of the toolchains has a tool.
pub open spec fn tool_paths(dirs: Seq<Seq<u8>>, arch: Seq<char>, name: Seq<char>) -> Seq<Seq<u8>> {
    Seq::new(dirs.len(), |i: int| tool_path(dirs[i], arch, name))
}

/// The error where a tool is nowhere.
pub open spec fn tool_not_found(name: Seq<char>) -> ErrorView {
    ErrorView::ToolNotFound(
        "Could not find '"@ + name
            + "'. Install LLVM tools or use `rustup component add llvm-tools-preview` and `cargo install cargo-binutils`."@,
    )
}

/// A search for a tool that has just begun.
pub open spec fn search_start(name: Seq<char>) -> SearchView {
    SearchView { name, stage: SearchStageView::Plain }
}

/// A search that is over because the tool is known.
pub open spec fn search_found(name: Seq<char>, path: Seq<u8>) -> SearchView {
    SearchView { name, stage: SearchStageView::Done(Ok(path)) }
}

/// The stage in which these paths are tried: the next one where there are none.
pub open spec fn probing(candidates: Seq<Seq<u8>>) -> SearchStageView {
    if candidates.len() == 0 {
        SearchStageView::Binutils
    } else {
        SearchStageView::Probing { current: candidates[0], rest: candidates.skip(1) }
    }
}

/// What a search asks for next, until it is over.
pub open spec fn search_request(search: SearchView) -> Option<RequestView> {
    match search.stage {
        SearchStageView::Plain => Some(RequestView::Locate(search.name)),
        SearchStageView::Versioned(version) => Some(
            RequestView::Locate(versioned_name(search.name, version)),
        ),
        SearchStageView::Home => Some(RequestView::Variable("RUSTUP_HOME"@)),
        SearchStageView::Listing(dir) => Some(RequestView::ListDir(dir)),
        SearchStageView::Toolchains(_) => Some(RequestView::Architecture),
        SearchStageView::Probing { current, .. } => Some(RequestView::Exists(current)),
        SearchStageView::Binutils => Some(RequestView::Locate(binutils_name(search.name))),
        SearchStageView::Done(_) => None,
    }
}

/// The stage of a search after a reply. A reply of another kind than the request calls for
/// changes nothing.
pub open spec fn search_stage_after(search: SearchView, reply: ReplyView) -> SearchStageView {
    match (search.stage, reply) {
        (SearchStageView::Plain, ReplyView::Located(Some(path))) => SearchStageView::Done(Ok(path)),
        (SearchStageView::Plain, ReplyView::Located(None)) => SearchStageView::Versioned(
            NEWEST_VERSION,
        ),
        (SearchStageView::Versioned(_), ReplyView::Located(Some(path))) => SearchStageView::Done(
            Ok(path),
        ),
        (
            SearchStageView::Versioned(version),
            ReplyView::Located(None),
        ) => if version > OLDEST_VERSION {
            SearchStageView::Versioned((version - 1) as u8)
        } else {
            SearchStageView::Home
        },
        (SearchStageView::Home, ReplyView::Variable(Some(home))) => SearchStageView::Listing(
            toolchains_dir(home),
        ),
        (SearchStageView::Home, ReplyView::Variable(None)) => SearchStageView::Binutils,
        (SearchStageView::Listing(dir), ReplyView::Entries(entries)) => SearchStageView::Toolchains(
            toolchains(dir, readable(entries)),
        ),
        (SearchStageView::Listing(_), ReplyView::Failed(_)) => SearchStageView::Binutils,
        (SearchStageView::Toolchains(dirs), ReplyView::Text(arch)) => probing(
            tool_paths(dirs, arch, search.name),
        ),
        (
            SearchStageView::Probing { current, rest },
            ReplyView::Exists(there),
        ) => if there {
            SearchStageView::Done(Ok(current))
        } else {
            probing(rest)
        },
        (SearchStageView::Binutils, ReplyView::Located(Some(path))) => SearchStageView::Done(
            Ok(path),
        ),
        (SearchStageView::Binutils, ReplyView::Located(None)) => SearchStageView::Done(
            Err(tool_not_found(search.name)),
        ),
        (stage, _) => stage,
    }
}

/// A search after a reply.
pub open spec fn search_after(search: SearchView, reply: ReplyView) -> SearchView {
    SearchView { name: search.name, stage: search_stage_after(search, reply) }
}

/// Begins the search for an LLVM tool: by its name, by its name with a version, in rustup's
/// toolchains and under its `cargo-binutils` name, in this order.
pub fn find_llvm_tool(name: &str) -> (r: ToolSearch)
    ensures
        r@ == search_start(name@),
{
    ToolSearch { name: name.to_owned(), stage: SearchStage::Plain }
}

/// The toolchains with these names.
fn toolchain_dirs(dir: &FilePath, names: &Vec<FilePath>) -> (r: Vec<FilePath>)
    ensures
        paths(r@) == toolchains(dir@, paths(names@)),
{
    let mut r: Vec<FilePath> = Vec::new();
    let mut i: usize = 0;
    while i < names.len()
        invariant
            i <= names@.len(),
            r@.len() == i,
            forall|k: int| 0 <= k < i ==> (#[trigger] r@[k])@ == joined(dir@, names@[k]@),
        decreases names@.len() - i,
    {
        r.push(dir.join(&names[i]));
        i = i + 1;
    }
    proof {
        assert(paths(r@) =~= toolchains(dir@, paths(names@)));
    }
    r
}

/// Where each of the toolchains has a tool.
fn toolchain_tools(dirs: &Vec<FilePath>, arch: &str, name: &str) -> (r: Vec<FilePath>)
    ensures
        paths(r@) == tool_paths(paths(dirs@), arch@, name@),
{
    let file = concat_three(arch, "-unknown-linux-gnu/bin/", name);
    let mut r: Vec<FilePath> = Vec::new();
    let mut i: usize = 0;
    while i < dirs.len()
        invariant
            i <= dirs@.len(),
            file@ == arch@ + "-unknown-linux-gnu/bin/"@ + name@,
            r@.len() == i,
            forall|k: int| 0 <= k < i ==> (#[trigger] r@[k])@ == tool_path(dirs@[k]@, arch@, name@),
        decreases dirs@.len() - i,
    {
        r.push(dirs[i].join_text("lib").join_text("rustlib").join_text(file.as_str()));
        i = i + 1;
    }
    proof {
        assert(paths(r@) =~= tool_paths(paths(dirs@), arch@, name@));
    }
    r
}

/// The stage in which these paths are tried.
fn probe(candidates: Vec<FilePath>) -> (r: SearchStage)
    ensures
        r@ == probing(paths(candidates@)),
{
    let mut rest = candidates;
    if rest.len() == 0 {
        return SearchStage::Binutils;
    }
    let current = rest.remove(0);
    proof {
        assert(paths(rest@) =~= paths(candidates@).skip(1));
    }
    SearchStage::Probing { current, rest }
}

impl ToolSearch {
    /// What is to be done next, until the search is over.
    pub fn request(&self) -> (r: Option<Request>)
        ensures
            request_or_none(r) == search_request(self@),
    {
        match &self.stage {
            SearchStage::Plain => Some(Request::Locate(self.name.clone())),
            SearchStage::Versioned(version) => Some(
                Request::Locate(
                    concat_three(self.name.as_str(), "-", decimal_text(*version as u64).as_str()),
                ),
            ),
            SearchStage::Home => Some(Request::Variable("RUSTUP_HOME".to_owned())),
            SearchStage::Listing(dir) => Some(Request::ListDir(dir.copy())),
            SearchStage::Toolchains(_) => Some(Request::Architecture),
            SearchStage::Probing { current, .. } => Some(Request::Exists(current.copy())),
            SearchStage::Binutils => {
                proof {
                    reveal_strlit("llvm-");
                }
                Some(Request::Locate(replace_text(self.name.as_str(), "llvm-", "rust-")))
            },
            SearchStage::Done(_) => None,
        }
    }

    /// Goes on with what became of the request.
    pub fn resume(self, reply: Reply) -> (r: ToolSearch)
        ensures
            r@ == search_after(self@, reply@),
    {
        let name = self.name;
        let stage = match (self.stage, reply) {
            (SearchStage::Plain, Reply::Located(Some(path))) => SearchStage::Done(Ok(path)),
            (SearchStage::Plain, Reply::Located(None)) => SearchStage::Versioned(NEWEST_VERSION),
            (SearchStage::Versioned(_), Reply::Located(Some(path))) => SearchStage::Done(Ok(path)),
            (SearchStage::Versioned(version), Reply::Located(None)) => {
                if version > OLDEST_VERSION {
                    SearchStage::Versioned(version - 1)
                } else {
                    SearchStage::Home
                }
            },
            (SearchStage::Home, Reply::Variable(Some(home))) => SearchStage::Listing(
                FilePath::from_text(home.as_str()).join_text("toolchains"),
            ),
            (SearchStage::Home, Reply::Variable(None)) => SearchStage::Binutils,
            (SearchStage::Listing(dir), Reply::Entries(entries)) => SearchStage::Toolchains(
                toolchain_dirs(&dir, &readable_names(&entries)),
            ),
            (SearchStage::Listing(_), Reply::Failed(_)) => SearchStage::Binutils,
            (SearchStage::Toolchains(dirs), Reply::Text(arch)) => probe(
                toolchain_tools(&dirs, arch.as_str(), name.as_str()),
            ),
            (SearchStage::Probing { current, rest }, Reply::Exists(there)) => {
                if there {
                    SearchStage::Done(Ok(current))
                } else {
                    probe(rest)
                }
            },
            (SearchStage::Binutils, Reply::Located(Some(path))) => SearchStage::Done(Ok(path)),
            (SearchStage::Binutils, Reply::Located(None)) => SearchStage::Done(
                Err(
                    CoverageError::ToolNotFound(
                        concat_three(
                            "Could not find '",
                            name.as_str(),
                            "'. Install LLVM tools or use `rustup component add llvm-tools-preview` and `cargo install cargo-binutils`.",
                        ),
                    ),
                ),
            ),
            (stage, _) => stage,
        };
        ToolSearch { name, stage }
    }
}

/// Surroundings that stay as they are while a search goes on.
pub struct Surroundings {
    /// Where a program is, by its name.
    pub located: spec_fn(Seq<char>) -> Option<Seq<u8>>,
    /// The environment variables that are set to a text.
    pub variables: spec_fn(Seq<char>) -> Option<Seq<char>>,
    /// What a directory lists, or why it cannot be listed.
    pub entries: spec_fn(Seq<u8>) -> Result<Seq<Option<Seq<u8>>>, Seq<char>>,
    /// Whether anything has a path.
    pub exists_at: spec_fn(Seq<u8>) -> bool,
    /// The machine's architecture.
    pub arch: Seq<char>,
}

/// What becomes of a request of a search.
pub open spec fn reply_of(world: Surroundings, request: RequestView) -> ReplyView {
    match request {
        RequestView::Locate(name) => ReplyView::Located((world.located)(name)),
        RequestView::Variable(name) => ReplyView::Variable((world.variables)(name)),
        RequestView::ListDir(dir) => match (world.entries)(dir) {
            Ok(entries) => ReplyView::Entries(entries),
            Err(reason) => ReplyView::Failed(reason),
        },
        RequestView::Exists(path) => ReplyView::Exists((world.exists_at)(path)),
        RequestView::Architecture => ReplyView::Text(world.arch),
        _ => ReplyView::Done,
    }
}

/// A search after so many requests and replies, or where it is over before.
pub open spec fn search_run(search: SearchView, world: Surroundings, steps: nat) -> SearchView
    decreases steps,
{
    if steps == 0 {
        search
    } else {
        match search_request(search) {
            Some(request) => search_run(
                search_after(search, reply_of(world, request)),
                world,
                (steps - 1) as nat,
            ),
            None => search,
        }
    }
}

/// The names of a tool from one version down to the oldest.
pub open spec fn versioned_names(name: Seq<char>, newest: u8) -> Seq<Seq<char>> {
    Seq::new((newest - OLDEST_VERSION + 1) as nat, |i: int| versioned_name(name, (newest - i) as u8))
}

/// The first of these programs that is there.
pub open spec fn first_located(names: Seq<Seq<char>>, world: Surroundings) -> Option<Seq<u8>>
    decreases names.len(),
{
    if names.len() == 0 {
        None
    } else if (world.located)(names[0]) is Some {
        (world.located)(names[0])
    } else {
        first_located(names.skip(1), world)
    }
}

/// The first of these paths that is there.
pub open spec fn first_existing(candidates: Seq<Seq<u8>>, world: Surroundings) -> Option<Seq<u8>>
    decreases candidates.len(),
{
    if candidates.len() == 0 {
        None
    } else if (world.exists_at)(candidates[0]) {
        Some(candidates[0])
    } else {
        first_existing(candidates.skip(1), world)
    }
}

/// Where rustup's toolchains have a tool, as far as they can be listed.
pub open spec fn rustup_tools(name: Seq<char>, world: Surroundings) -> Seq<Seq<u8>> {
    match (world.variables)("RUSTUP_HOME"@) {
        Some(home) => match (world.entries)(toolchains_dir(home)) {
            Ok(entries) => tool_paths(
                toolchains(toolchains_dir(home), readable(entries)),
                world.arch,
                name,
            ),
            Err(_) => Seq::empty(),
        },
        None => Seq::empty(),
    }
}

/// Where a tool is found under its `cargo-binutils` name, if it is not found before.
pub open spec fn binutils_result(name: Seq<char>, world: Surroundings) -> Result<
    Seq<u8>,
    ErrorView,
> {
    match (world.located)(binutils_name(name)) {
        Some(path) => Ok(path),
        None => Err(tool_not_found(name)),
    }
}

/// Where a tool is found: as a program of its own name, else of its newest version, else in the
/// first of rustup's toolchains that has it, else under its `cargo-binutils` name.
pub open spec fn search_result(name: Seq<char>, world: Surroundings) -> Result<Seq<u8>, ErrorView> {
    match first_located(seq![name] + versioned_names(name, NEWEST_VERSION), world) {
        Some(path) => Ok(path),
        None => match first_existing(rustup_tools(name, world), world) {
            Some(path) => Ok(path),
            None => binutils_result(name, world),
        },
    }
}

/// A search that tries paths finds the first that exists.
proof fn lemma_probing(name: Seq<char>, candidates: Seq<Seq<u8>>, world: Surroundings) -> (steps:
    nat)
    ensures
        search_run(SearchView { name, stage: probing(candidates) }, world, steps).stage
            == SearchStageView::Done(
            match first_existing(candidates, world) {
                Some(path) => Ok(path),
                None => binutils_result(name, world),
            },
        ),
    decreases candidates.len(),
{
    let here = SearchView { name, stage: probing(candidates) };
    reveal_with_fuel(search_run, 2);
    if candidates.len() == 0 || (world.exists_at)(candidates[0]) {
        1
    } else {
        let more = lemma_probing(name, candidates.skip(1), world);
        let next = search_after(here, reply_of(world, search_request(here)->Some_0));
        assert(next == SearchView { name, stage: probing(candidates.skip(1)) });
        assert(search_run(here, world, more + 1) == search_run(next, world, more));
        more + 1
    }
}

/// A search that has come to the home of rustup finds the tool there or under its other name.
proof fn lemma_home(name: Seq<char>, world: Surroundings) -> (steps: nat)
    ensures
        search_run(SearchView { name, stage: SearchStageView::Home }, world, steps).stage
            == SearchStageView::Done(
            match first_existing(rustup_tools(name, world), world) {
                Some(path) => Ok(path),
                None => binutils_result(name, world),
            },
        ),
{
    let here = SearchView { name, stage: SearchStageView::Home };
    let candidates = rustup_tools(name, world);
    let more = lemma_probing(name, candidates, world);
    let last = SearchView { name, stage: probing(candidates) };
    let next = search_after(here, reply_of(world, search_request(here)->Some_0));
    match (world.variables)("RUSTUP_HOME"@) {
        None => {
            assert(next == last);
            assert(search_run(here, world, more + 1) == search_run(next, world, more));
            more + 1
        },
        Some(home) => {
            let after_listing = search_after(
                next,
                reply_of(world, search_request(next)->Some_0),
            );
            match (world.entries)(toolchains_dir(home)) {
                Err(_) => {
                    assert(after_listing == last);
                    assert(search_run(next, world, more + 1) == search_run(last, world, more));
                    assert(search_run(here, world, more + 2) == search_run(next, world, more + 1));
                    more + 2
                },
                Ok(_) => {
                    let after_arch = search_after(
                        after_listing,
                        reply_of(world, search_request(after_listing)->Some_0),
                    );
                    assert(after_arch == last);
                    assert(search_run(after_listing, world, more + 1) == search_run(
                        last,
                        world,
                        more,
                    ));
                    assert(search_run(next, world, more + 2) == search_run(
                        after_listing,
                        world,
                        more + 1,
                    ));
                    assert(search_run(here, world, more + 3) == search_run(next, world, more + 2));
                    more + 3
                },
            }
        },
    }
}

/// A search that goes through the versions finds the newest that is there.
proof fn lemma_versions(name: Seq<char>, version: u8, world: Surroundings) -> (steps: nat)
    requires
        OLDEST_VERSION <= version <= NEWEST_VERSION,
    ensures
        search_run(
            SearchView { name, stage: SearchStageView::Versioned(version) },
            world,
            steps,
        ).stage == SearchStageView::Done(
            match first_located(versioned_names(name, version), world) {
                Some(path) => Ok(path),
                None => match first_existing(rustup_tools(name, world), world) {
                    Some(path) => Ok(path),
                    None => binutils_result(name, world),
                },
            },
        ),
    decreases version,
{
    let here = SearchView { name, stage: SearchStageView::Versioned(version) };
    let names = versioned_names(name, version);
    assert(names[0] == versioned_name(name, version));
    let next = search_after(here, reply_of(world, search_request(here)->Some_0));
    if (world.located)(names[0]) is Some {
        reveal_with_fuel(search_run, 2);
        1
    } else if version > OLDEST_VERSION {
        let more = lemma_versions(name, (version - 1) as u8, world);
        assert(names.skip(1) =~= versioned_names(name, (version - 1) as u8));
        assert(search_run(here, world, more + 1) == search_run(next, world, more));
        more + 1
    } else {
        let more = lemma_home(name, world);
        assert(names.skip(1).len() == 0);
        assert(first_located(names.skip(1), world) is None);
        assert(search_run(here, world, more + 1) == search_run(next, world, more));
        more + 1
    }
}

/// In surroundings that stay as they are, a search comes to its end, and with the first place
/// that has the tool: its own name goes before its versions, a newer version before an older,
/// these before rustup's toolchains in the order of their listing, and these before the
/// `cargo-binutils` name. Where none has it, the search ends in [`CoverageError::ToolNotFound`].
pub proof fn law_search_ends_at_first_place(name: Seq<char>, world: Surroundings)
    ensures
        exists|steps: nat|
            (#[trigger] search_run(search_start(name), world, steps)).stage
                == SearchStageView::Done(search_result(name, world)),
{
    let here = search_start(name);
    let names = seq![name] + versioned_names(name, NEWEST_VERSION);
    let next = search_after(here, reply_of(world, search_request(here)->Some_0));
    if (world.located)(name) is Some {
        reveal_with_fuel(search_run, 2);
        assert(search_run(here, world, 1).stage == SearchStageView::Done(
            search_result(name, world),
        ));
    } else {
        let more = lemma_versions(name, NEWEST_VERSION, world);
        assert(names.skip(1) =~= versioned_names(name, NEWEST_VERSION));
        assert(search_run(here, world, more + 1) == search_run(next, world, more));
        assert(search_run(here, world, more + 1).stage == SearchStageView::Done(
            search_result(name, world),
        ));
    }
}

/// What is left to do of a search.
pub open spec fn search_left(search: SearchView) -> Left {
    match search.stage {
        SearchStageView::Plain => Left { parts: 1, stages: 300, items: 0 },
        SearchStageView::Versioned(version) => Left {
            parts: 1,
            stages: 5 + version as nat,
            items: 0,
        },
        SearchStageView::Home => Left { parts: 1, stages: 4, items: 0 },
        SearchStageView::Listing(_) => Left { parts: 1, stages: 3, items: 0 },
        SearchStageView::Toolchains(_) => Left { parts: 1, stages: 2, items: 0 },
        SearchStageView::Probing { rest, .. } => Left { parts: 1, stages: 1, items: rest.len() },
        SearchStageView::Binutils => Left { parts: 1, stages: 0, items: 0 },
        SearchStageView::Done(_) => Left { parts: 0, stages: 0, items: 0 },
    }
}

/// A search asks until it is over. A reply that its request may get takes it on, so that less is
/// left to do; any other changes nothing.
pub proof fn law_search_goes_on(search: SearchView, reply: ReplyView)
    ensures
        search_request(search) is None <==> search.stage is Done,
        search_request(search) is None ==> search_after(search, reply) == search,
        search_request(search) is Some && !answers(search_request(search)->Some_0, reply)
            ==> search_after(search, reply) == search,
        search_request(search) is Some && answers(search_request(search)->Some_0, reply) ==> less(
            search_left(search_after(search, reply)),
            search_left(search),
        ),
{
}

/// A search that has missed the tool so many times under the names that it asked for.
pub open spec fn missed(search: SearchView, times: nat) -> SearchView
    decreases times,
{
    if times == 0 {
        search
    } else {
        search_after(missed(search, (times - 1) as nat), ReplyView::Located(None))
    }
}

/// A search that has missed the tool at so many paths.
pub open spec fn passed(search: SearchView, times: nat) -> SearchView
    decreases times,
{
    if times == 0 {
        search
    } else {
        search_after(passed(search, (times - 1) as nat), ReplyView::Exists(false))
    }
}

/// A search that has missed the tool by its own name has come to the versions.
proof fn lemma_missed(name: Seq<char>, times: nat)
    requires
        1 <= times <= 7,
    ensures
        missed(search_start(name), times) == (SearchView {
            name,
            stage: SearchStageView::Versioned((21 - times) as u8),
        }),
    decreases times,
{
    let before = missed(search_start(name), (times - 1) as nat);
    assert(missed(search_start(name), times) == search_after(before, ReplyView::Located(None)));
    if times == 1 {
        assert(before == search_start(name));
    } else {
        lemma_missed(name, (times - 1) as nat);
    }
}

/// A tool is looked for by its own name first, then by its name with a version behind it, from 20
/// down to 14, and then in the home of rustup.
pub proof fn law_names_are_tried_from_the_newest(name: Seq<char>, version: nat)
    requires
        14 <= version <= 20,
    ensures
        search_request(search_start(name)) == Some(RequestView::Locate(name)),
        search_request(missed(search_start(name), (21 - version) as nat)) == Some(
            RequestView::Locate(name + "-"@ + decimal(version)),
        ),
        search_request(missed(search_start(name), 8)) == Some(RequestView::Variable("RUSTUP_HOME"@)),
{
    lemma_missed(name, (21 - version) as nat);
    lemma_missed(name, 7);
    assert(missed(search_start(name), 8) == search_after(
        missed(search_start(name), 7),
        ReplyView::Located(None),
    ));
}

/// A search that is told where a program is, or that a path exists, ends there, and it goes for the
/// same tool throughout.
pub proof fn law_search_ends_where_it_is_told(search: SearchView, reply: ReplyView, path: Seq<u8>)
    ensures
        search_after(search, reply).name == search.name,
        search_request(search) matches Some(RequestView::Locate(_)) ==> search_after(
            search,
            ReplyView::Located(Some(path)),
        ).stage == SearchStageView::Done(Ok(path)),
        search_request(search) == Some(RequestView::Exists(path)) ==> search_after(
            search,
            ReplyView::Exists(true),
        ).stage == SearchStageView::Done(Ok(path)),
{
}

/// A search ends well nowhere but where it was told that a program is, or at a path that it has
/// asked for and that exists.
pub proof fn law_search_finds_nothing_by_itself(search: SearchView, reply: ReplyView)
    requires
        !(search.stage is Done),
    ensures
        search_after(search, reply).stage matches SearchStageView::Done(Ok(path)) ==> reply
            == ReplyView::Located(Some(path)) || (reply == ReplyView::Exists(true)
            && search_request(search) == Some(RequestView::Exists(path))),
{
}

/// Paths that are tried are tried in their order, and behind them comes the `cargo-binutils` name.
proof fn lemma_passed(search: SearchView, candidates: Seq<Seq<u8>>, times: nat)
    requires
        search.stage == probing(candidates),
        times <= candidates.len(),
    ensures
        passed(search, times).stage == probing(candidates.skip(times as int)),
        passed(search, times).name == search.name,
    decreases times,
{
    if times == 0 {
        assert(candidates.skip(0) =~= candidates);
    } else {
        let before = (times - 1) as nat;
        lemma_passed(search, candidates, before);
        assert(candidates.skip(before as int).skip(1) =~= candidates.skip(times as int));
    }
}

/// In the home of rustup, every toolchain that is listed is looked into, in the order of the
/// listing: for the tool in `lib/rustlib`, below the name of the machine. Where none has it, the
/// tool is looked for under its other name.
pub proof fn law_every_toolchain_is_looked_into(
    search: SearchView,
    home: Seq<char>,
    entries: Seq<Option<Seq<u8>>>,
    arch: Seq<char>,
    i: nat,
)
    requires
        search_request(search) == Some(RequestView::Variable("RUSTUP_HOME"@)),
        i <= readable(entries).len(),
    ensures
        ({
            let dir = joined(utf8(home), utf8("toolchains"@));
            let listing = search_after(search, ReplyView::Variable(Some(home)));
            let listed = search_after(listing, ReplyView::Entries(entries));
            let tried = passed(search_after(listed, ReplyView::Text(arch)), i);
            &&& search_request(listing) == Some(RequestView::ListDir(dir))
            &&& search_request(listed) == Some(RequestView::Architecture)
            &&& i < readable(entries).len() ==> search_request(tried) == Some(
                RequestView::Exists(
                    joined(
                        joined(joined(joined(dir, readable(entries)[i as int]), utf8("lib"@)), utf8("rustlib"@)),
                        utf8(arch + "-unknown-linux-gnu/bin/"@ + search.name),
                    ),
                ),
            )
            &&& i == readable(entries).len() ==> search_request(tried) == Some(
                RequestView::Locate(replaced(search.name, "llvm-"@, "rust-"@)),
            )
        }),
{
    let dir = joined(utf8(home), utf8("toolchains"@));
    let listing = search_after(search, ReplyView::Variable(Some(home)));
    let listed = search_after(listing, ReplyView::Entries(entries));
    let candidates = tool_paths(toolchains(dir, readable(entries)), arch, search.name);
    lemma_passed(search_after(listed, ReplyView::Text(arch)), candidates, i);
}

/// Where rustup has no home, or it cannot be listed, the tool is looked for under its other name.
pub proof fn law_search_goes_on_without_rustup(search: SearchView, reason: Seq<char>)
    ensures
        search_request(search) == Some(RequestView::Variable("RUSTUP_HOME"@)) ==> search_request(
            search_after(search, ReplyView::Variable(None)),
        ) == Some(RequestView::Locate(replaced(search.name, "llvm-"@, "rust-"@))),
        search_request(search) matches Some(RequestView::ListDir(_)) ==> search_request(
            search_after(search, ReplyView::Failed(reason)),
        ) == Some(RequestView::Locate(replaced(search.name, "llvm-"@, "rust-"@))),
{
}

/// The other name of a tool of LLVM has `rust-` in the place of `llvm-`.
pub proof fn law_other_name_begins_with_rust(rest: Seq<char>)
    requires
        forall|k: int| !occurs_at(rest, "llvm-"@, k),
    ensures
        replaced("llvm-"@ + rest, "llvm-"@, "rust-"@) == "rust-"@ + rest,
        search_request(SearchView { name: "llvm-"@ + rest, stage: SearchStageView::Binutils })
            == Some(RequestView::Locate("rust-"@ + rest)),
{
    reveal_strlit("llvm-");
    let name = "llvm-"@ + rest;
    assert(name.subrange(0, 5) =~= "llvm-"@);
    assert(occurs_at(name, "llvm-"@, 0));
    law_first_occurrence_is_replaced(name, "llvm-"@, "rust-"@, 0);
    assert(name.skip(5) =~= rest);
    law_text_without_occurrence_is_kept(rest, "llvm-"@, "rust-"@);
    assert(name.take(0) + "rust-"@ + rest =~= "rust-"@ + rest);
}

/// A search fails only where the tool is missed under its other name as well, and the error names
/// the tool.
pub proof fn law_search_fails_last(search: SearchView, reply: ReplyView)
    requires
        !(search.stage is Done),
    ensures
        search_after(search, reply).stage matches SearchStageView::Done(Err(_)) ==> search_request(
            search,
        ) == Some(RequestView::Locate(replaced(search.name, "llvm-"@, "rust-"@))) && reply
            == ReplyView::Located(None),
        search.stage is Binutils ==> search_after(search, ReplyView::Located(None)).stage
            == SearchStageView::Done(
            Err(
                ErrorView::ToolNotFound(
                    "Could not find '"@ + search.name
                        + "'. Install LLVM tools or use `rustup component add llvm-tools-preview` and `cargo install cargo-binutils`."@,
                ),
            ),
        ),
{
}

} // verus!
