//! The merging of raw profile data into one file.

use crate::client::{test_dir, tool_lookup, ClientView, CoverageClient};
use crate::error::{CoverageError, ErrorView};
use crate::path::{
    has_profraw_extension, is_profraw_name, joined, law_profile_data_is_told_by_its_extension, paths,
    FilePath,
};
use crate::report::profdata_path;
use crate::request::{
    answers, byte_strings, less, path_outcome, push_path, push_text, readable, readable_names,
    request_or_none, CommandLine, CommandView, Left, OutputView, Reply, ReplyView, Request,
    RequestView,
};
use crate::text::{concat_texts, show_bytes, shown, utf8};
use crate::tool_search::{
    law_search_goes_on, search_after, search_left, search_request, search_start, SearchStage,
    SearchStageView, SearchView, ToolSearch,
};
use vstd::prelude::*;
use vstd::string::*;

verus! {

/// How far a merge has come.
#[derive(Debug, PartialEq, Eq)]
pub enum MergeStage {
    /// The directory is listed; the search for `llvm-profdata` is next.
    Listing(ToolSearch),
    /// `llvm-profdata` is searched for, to merge these files.
    Searching { inputs: Vec<FilePath>, search: ToolSearch },
    /// This `llvm-profdata` merges these files.
    Running { inputs: Vec<FilePath>, tool: FilePath },
    /// The files are merged, or the merge has failed.
    Done(Result<FilePath, CoverageError>),
}

/// The model of a [`MergeStage`].
#[verifier::ext_equal]
pub enum MergeStageView {
    Listing(SearchView),
    Searching { inputs: Seq<Seq<u8>>, search: SearchView },
    Running { inputs: Seq<Seq<u8>>, tool: Seq<u8> },
    Done(Result<Seq<u8>, ErrorView>),
}

impl View for MergeStage {
    type V = MergeStageView;

    open spec fn view(&self) -> MergeStageView {
        match *self {
            MergeStage::Listing(search) => MergeStageView::Listing(search@),
            MergeStage::Searching { inputs, search } => MergeStageView::Searching {
                inputs: paths(inputs@),
                search: search@,
            },
            MergeStage::Running { inputs, tool } => MergeStageView::Running {
                inputs: paths(inputs@),
                tool: tool@,
            },
            MergeStage::Done(outcome) => MergeStageView::Done(path_outcome(outcome)),
        }
    }
}

/// A merge of the raw profile data in a directory.
#[derive(Debug, PartialEq, Eq)]
pub struct Merge {
    /// The directory of the test.
    pub dir: FilePath,
    pub stage: MergeStage,
}

/// The model of a [`Merge`].
#[verifier::ext_equal]
pub struct MergeView {
    pub dir: Seq<u8>,
    pub stage: MergeStageView,
}

impl View for Merge {
    type V = MergeView;

    open spec fn view(&self) -> MergeView {
        MergeView { dir: self.dir@, stage: self.stage@ }
    }
}

/// The files with raw profile data among the names in a directory, in their order.
pub open spec fn profraw_files(dir: Seq<u8>, names: Seq<Seq<u8>>) -> Seq<Seq<u8>> {
    names.filter(|name: Seq<u8>| is_profraw_name(name)).map_values(
        |name: Seq<u8>| joined(dir, name),
    )
}

/// The arguments for `llvm-profdata`: merge these files into that of the directory.
pub open spec fn merge_args(dir: Seq<u8>, inputs: Seq<Seq<u8>>) -> Seq<Seq<u8>> {
    seq![utf8("merge"@), utf8("--sparse"@)] + inputs + seq![utf8("-o"@), profdata_path(dir)]
}

/// The stage that a search for `llvm-profdata` leads to.
pub open spec fn merge_stage_from(inputs: Seq<Seq<u8>>, search: SearchView) -> MergeStageView {
    match search.stage {
        SearchStageView::Done(Ok(tool)) => MergeStageView::Running { inputs, tool },
        SearchStageView::Done(Err(error)) => MergeStageView::Done(Err(error)),
        _ => MergeStageView::Searching { inputs, search },
    }
}

/// A merge that has just begun.
pub open spec fn merge_start(client: ClientView, test_name: Seq<char>) -> MergeView {
    MergeView {
        dir: test_dir(client, test_name),
        stage: MergeStageView::Listing(
            tool_lookup("llvm-profdata"@, client.llvm_profdata_path),
        ),
    }
}

/// What a merge asks for next, until it is done or has failed.
pub open spec fn merge_request(merge: MergeView) -> Option<RequestView> {
    match merge.stage {
        MergeStageView::Listing(_) => Some(RequestView::ListDir(merge.dir)),
        MergeStageView::Searching { search, .. } => search_request(search),
        MergeStageView::Running { inputs, tool } => Some(
            RequestView::Run(CommandView { program: tool, args: merge_args(merge.dir, inputs) }),
        ),
        MergeStageView::Done(_) => None,
    }
}

/// The stage of a merge after a reply. A reply of another kind than the request calls for
/// changes nothing.
pub open spec fn merge_stage_after(merge: MergeView, reply: ReplyView) -> MergeStageView {
    match (merge.stage, reply) {
        (MergeStageView::Listing(_), ReplyView::Failed(reason)) => MergeStageView::Done(
            Err(ErrorView::Io(reason)),
        ),
        (
            MergeStageView::Listing(search),
            ReplyView::Entries(entries),
        ) => {
            let inputs = profraw_files(merge.dir, readable(entries));
            if inputs.len() == 0 {
                MergeStageView::Done(
                    Err(ErrorView::Other("No profraw files found in test directory"@)),
                )
            } else {
                merge_stage_from(inputs, search)
            }
        },
        (MergeStageView::Searching { inputs, search }, reply) => merge_stage_from(
            inputs,
            search_after(search, reply),
        ),
        (MergeStageView::Running { .. }, ReplyView::Failed(reason)) => MergeStageView::Done(
            Err(ErrorView::Io(reason)),
        ),
        (
            MergeStageView::Running { .. },
            ReplyView::Ran(output),
        ) => if output.success {
            MergeStageView::Done(Ok(profdata_path(merge.dir)))
        } else {
            MergeStageView::Done(
                Err(
                    ErrorView::LlvmProfdata(
                        "llvm-profdata merge failed: "@ + shown(output.stderr),
                    ),
                ),
            )
        },
        (stage, _) => stage,
    }
}

/// A merge after a reply.
pub open spec fn merge_after(merge: MergeView, reply: ReplyView) -> MergeView {
    MergeView { dir: merge.dir, stage: merge_stage_after(merge, reply) }
}

/// Picks the files with raw profile data.
fn pick_profraw_files(dir: &FilePath, names: &Vec<FilePath>) -> (r: Vec<FilePath>)
    ensures
        paths(r@) == profraw_files(dir@, paths(names@)),
{
    let mut r: Vec<FilePath> = Vec::new();
    let ghost all = paths(names@);
    let mut i: usize = 0;
    proof {
        reveal(Seq::filter);
        assert(paths(r@) =~= profraw_files(dir@, all.take(0)));
    }
    while i < names.len()
        invariant
            i <= names@.len(),
            all == paths(names@),
            paths(r@) == profraw_files(dir@, all.take(i as int)),
        decreases names@.len() - i,
    {
        let ghost before = r@;
        proof {
            reveal(Seq::filter);
            assert(all.take(i + 1).drop_last() =~= all.take(i as int));
            assert(all.take(i + 1).last() == names@[i as int]@);
        }
        if has_profraw_extension(&names[i]) {
            r.push(dir.join(&names[i]));
            proof {
                assert(paths(r@) =~= paths(before).push(joined(dir@, names@[i as int]@)));
                assert(profraw_files(dir@, all.take(i + 1)) =~= profraw_files(
                    dir@,
                    all.take(i as int),
                ).push(joined(dir@, names@[i as int]@)));
            }
        }
        i = i + 1;
    }
    proof {
        assert(all.take(i as int) =~= all);
    }
    r
}

/// The stage that a search for `llvm-profdata` leads to.
fn stage_from(inputs: Vec<FilePath>, search: ToolSearch) -> (r: MergeStage)
    ensures
        r@ == merge_stage_from(paths(inputs@), search@),
{
    match search.stage {
        SearchStage::Done(Ok(tool)) => MergeStage::Running { inputs, tool },
        SearchStage::Done(Err(error)) => MergeStage::Done(Err(error)),
        stage => MergeStage::Searching { inputs, search: ToolSearch { name: search.name, stage } },
    }
}

impl CoverageClient {
    /// Begins to merge the raw profile data of a test into `coverage.profdata`.
    pub fn merge_profdata(&self, test_name: &str) -> (r: Merge)
        ensures
            r@ == merge_start(self@, test_name@),
    {
        Merge {
            dir: self.dir_of(test_name),
            stage: MergeStage::Listing(self.find_llvm_profdata()),
        }
    }
}

impl Merge {
    /// The arguments for `llvm-profdata`.
    fn args_for(&self, inputs: &Vec<FilePath>) -> (r: Vec<Vec<u8>>)
        ensures
            byte_strings(r@) == merge_args(self.dir@, paths(inputs@)),
    {
        let mut args: Vec<Vec<u8>> = Vec::new();
        push_text(&mut args, "merge");
        push_text(&mut args, "--sparse");
        let ghost head = seq![utf8("merge"@), utf8("--sparse"@)];
        let ghost all = paths(inputs@);
        let mut i: usize = 0;
        proof {
            assert(byte_strings(args@) =~= head + all.take(0));
        }
        while i < inputs.len()
            invariant
                i <= inputs@.len(),
                all == paths(inputs@),
                byte_strings(args@) == head + all.take(i as int),
            decreases inputs@.len() - i,
        {
            push_path(&mut args, &inputs[i]);
            proof {
                assert((head + all.take(i as int)).push(all[i as int]) =~= head + all.take(i + 1));
            }
            i = i + 1;
        }
        push_text(&mut args, "-o");
        push_path(&mut args, &self.dir.join_text("coverage.profdata"));
        proof {
            assert(all.take(i as int) =~= all);
            assert(byte_strings(args@) =~= merge_args(self.dir@, all));
        }
        args
    }

    /// What is to be done next, until the files are merged or the merge has failed.
    pub fn request(&self) -> (r: Option<Request>)
        ensures
            request_or_none(r) == merge_request(self@),
    {
        match &self.stage {
            MergeStage::Listing(_) => Some(Request::ListDir(self.dir.copy())),
            MergeStage::Searching { search, .. } => search.request(),
            MergeStage::Running { inputs, tool } => Some(
                Request::Run(CommandLine { program: tool.copy(), args: self.args_for(inputs) }),
            ),
            MergeStage::Done(_) => None,
        }
    }

    /// Goes on with what became of the request.
    pub fn resume(self, reply: Reply) -> (r: Merge)
        ensures
            r@ == merge_after(self@, reply@),
    {
        let Merge { dir, stage } = self;
        let next = match (stage, reply) {
            (MergeStage::Listing(_), Reply::Failed(reason)) => MergeStage::Done(
                Err(CoverageError::Io(reason)),
            ),
            (MergeStage::Listing(search), Reply::Entries(entries)) => {
                let inputs = pick_profraw_files(&dir, &readable_names(&entries));
                if inputs.len() == 0 {
                    MergeStage::Done(
                        Err(
                            CoverageError::Other(
                                "No profraw files found in test directory".to_owned(),
                            ),
                        ),
                    )
                } else {
                    stage_from(inputs, search)
                }
            },
            (MergeStage::Searching { inputs, search }, reply) => stage_from(
                inputs,
                search.resume(reply),
            ),
            (MergeStage::Running { .. }, Reply::Failed(reason)) => MergeStage::Done(
                Err(CoverageError::Io(reason)),
            ),
            (MergeStage::Running { .. }, Reply::Ran(output)) => {
                if output.success {
                    MergeStage::Done(Ok(dir.join_text("coverage.profdata")))
                } else {
                    MergeStage::Done(
                        Err(
                            CoverageError::LlvmProfdata(
                                concat_texts(
                                    "llvm-profdata merge failed: ",
                                    show_bytes(&output.stderr).as_str(),
                                ),
                            ),
                        ),
                    )
                }
            },
            (stage, _) => stage,
        };
        Merge { dir, stage: next }
    }
}

/// Whether a merge keeps no search that is over, but for one that has not been looked at.
pub open spec fn merge_in_order(merge: MergeView) -> bool {
    match merge.stage {
        MergeStageView::Searching { search, .. } => !(search.stage is Done),
        _ => true,
    }
}

/// What is left to do of a merge.
pub open spec fn merge_left(merge: MergeView) -> Left {
    match merge.stage {
        MergeStageView::Listing(_) => Left { parts: 3, stages: 0, items: 0 },
        MergeStageView::Searching { search, .. } => Left { parts: 2, ..search_left(search) },
        MergeStageView::Running { .. } => Left { parts: 1, stages: 0, items: 0 },
        MergeStageView::Done(_) => Left { parts: 0, stages: 0, items: 0 },
    }
}

/// A merge asks until it is over. A reply that its request may get takes it on, so that less
/// is left to do; any other changes nothing.
pub proof fn law_merge_goes_on(merge: MergeView, reply: ReplyView)
    requires
        merge_in_order(merge),
    ensures
        merge_in_order(merge_after(merge, reply)),
        merge_request(merge) is None <==> merge.stage is Done,
        merge_request(merge) is None ==> merge_after(merge, reply) == merge,
        merge_request(merge) is Some && !answers(merge_request(merge)->Some_0, reply) ==> merge_after(merge, reply) == merge,
        merge_request(merge) is Some && answers(merge_request(merge)->Some_0, reply) ==> less(
            merge_left(merge_after(merge, reply)),
            merge_left(merge),
        ),
{
    match merge.stage {
        MergeStageView::Searching { search, .. } => {
            law_search_goes_on(search, reply);
        },
        _ => {},
    }
}

/// A merge after replies, one after the other.
pub open spec fn merge_run(merge: MergeView, replies: Seq<ReplyView>) -> MergeView
    decreases replies.len(),
{
    if replies.len() == 0 {
        merge
    } else {
        merge_run(merge_after(merge, replies[0]), replies.skip(1))
    }
}

/// Whatever the replies, a merge that is done ends at `coverage.profdata` in the directory of
/// its test, which is where the reports read.
pub proof fn law_merge_ends_where_reports_read(
    client: ClientView,
    test_name: Seq<char>,
    replies: Seq<ReplyView>,
)
    ensures
        match merge_run(merge_start(client, test_name), replies).stage {
            MergeStageView::Done(Ok(path)) => path == profdata_path(test_dir(client, test_name)),
            _ => true,
        },
{
    lemma_merge_target(merge_start(client, test_name), replies);
}

/// A merge ends at the merged profile data of its directory.
proof fn lemma_merge_target(merge: MergeView, replies: Seq<ReplyView>)
    requires
        merge.stage matches MergeStageView::Done(Ok(path)) ==> path == profdata_path(merge.dir),
    ensures
        merge_run(merge, replies).stage matches MergeStageView::Done(Ok(path)) ==> path
            == profdata_path(merge.dir),
    decreases replies.len(),
{
    if replies.len() > 0 {
        lemma_merge_target(merge_after(merge, replies[0]), replies.skip(1));
    }
}

/// Whether an entry of a listing is raw profile data: it could be read, and its name is another,
/// not empty, with `.profraw` behind it.
pub open spec fn is_raw_profile(entry: Option<Seq<u8>>) -> bool {
    entry matches Some(name) && exists|stem: Seq<u8>|
        stem.len() > 0 && name == #[trigger] (stem + utf8(".profraw"@))
}

/// The raw profile data in a listing.
pub open spec fn raw_profiles(entries: Seq<Option<Seq<u8>>>) -> Seq<Option<Seq<u8>>> {
    entries.filter(|entry: Option<Seq<u8>>| is_raw_profile(entry))
}

/// The files that are picked from a listing are those of its raw profile data, in their order.
proof fn lemma_picked_files(dir: Seq<u8>, entries: Seq<Option<Seq<u8>>>)
    ensures
        profraw_files(dir, readable(entries)) == raw_profiles(entries).map_values(
            |entry: Option<Seq<u8>>| joined(dir, entry->Some_0),
        ),
    decreases entries.len(),
{
    reveal(Seq::filter);
    let path = |entry: Option<Seq<u8>>| joined(dir, entry->Some_0);
    if entries.len() == 0 {
        assert(profraw_files(dir, readable(entries)) =~= raw_profiles(entries).map_values(path));
    } else {
        let rest = entries.drop_last();
        lemma_picked_files(dir, rest);
        match entries.last() {
            Some(name) => {
                law_profile_data_is_told_by_its_extension(name);
                assert(readable(entries).drop_last() =~= readable(rest));
                if is_profraw_name(name) {
                    assert(profraw_files(dir, readable(entries)) =~= profraw_files(
                        dir,
                        readable(rest),
                    ).push(joined(dir, name)));
                    assert(raw_profiles(entries).map_values(path) =~= raw_profiles(
                        rest,
                    ).map_values(path).push(joined(dir, name)));
                } else {
                    assert(readable(entries).filter(|name: Seq<u8>| is_profraw_name(name))
                        =~= readable(rest).filter(|name: Seq<u8>| is_profraw_name(name)));
                }
            },
            None => {},
        }
    }
}

/// A merge that has just begun lists the directory of its test.
pub proof fn law_merge_lists_the_test(client: ClientView, test_name: Seq<char>, reason: Seq<char>)
    ensures
        merge_request(merge_start(client, test_name)) == Some(
            RequestView::ListDir(joined(client.output_dir, utf8(test_name))),
        ),
        merge_after(merge_start(client, test_name), ReplyView::Failed(reason)).stage
            == MergeStageView::Done(Err(ErrorView::Io(reason))),
{
}

/// The command that merges a listing, where `llvm-profdata` is set, runs that tool. It takes in the
/// raw profile data of the listing and nothing else, each as often and in the order as it is
/// listed, and puts it into the file that the merge ends at.
pub proof fn law_all_profiles_are_merged(
    client: ClientView,
    test_name: Seq<char>,
    tool: Seq<u8>,
    entries: Seq<Option<Seq<u8>>>,
)
    requires
        client.llvm_profdata_path == Some(tool),
        raw_profiles(entries).len() > 0,
    ensures
        ({
            let dir = joined(client.output_dir, utf8(test_name));
            let listed = merge_after(merge_start(client, test_name), ReplyView::Entries(entries));
            &&& merge_request(listed) matches Some(RequestView::Run(command)) && {
                &&& command.program == tool
                &&& command.args.len() == raw_profiles(entries).len() + 4
                &&& command.args[0] == utf8("merge"@)
                &&& command.args[1] == utf8("--sparse"@)
                &&& command.args[command.args.len() - 2] == utf8("-o"@)
                &&& command.args.last() == joined(dir, utf8("coverage.profdata"@))
                &&& forall|i: int|
                    0 <= i < raw_profiles(entries).len() ==> command.args[i + 2] == joined(
                        dir,
                        #[trigger] raw_profiles(entries)[i]->Some_0,
                    )
            }
        }),
{
    lemma_picked_files(joined(client.output_dir, utf8(test_name)), entries);
}

/// Every name in a listing that is raw profile data is among the arguments of the command that
/// merges it.
pub proof fn law_no_profile_is_left_out(
    client: ClientView,
    test_name: Seq<char>,
    tool: Seq<u8>,
    entries: Seq<Option<Seq<u8>>>,
    stem: Seq<u8>,
)
    requires
        client.llvm_profdata_path == Some(tool),
        stem.len() > 0,
        entries.contains(Some(stem + utf8(".profraw"@))),
    ensures
        ({
            let dir = joined(client.output_dir, utf8(test_name));
            let listed = merge_after(merge_start(client, test_name), ReplyView::Entries(entries));
            merge_request(listed) matches Some(RequestView::Run(command)) && command.args.contains(
                joined(dir, stem + utf8(".profraw"@)),
            )
        }),
{
    broadcast use vstd::seq_lib::group_filter_ensures;

    let entry = Some(stem + utf8(".profraw"@));
    let at = entries.index_of(entry);
    assert(is_raw_profile(entries[at]));
    assert(raw_profiles(entries).contains(entry));
    let i = raw_profiles(entries).index_of(entry);
    law_all_profiles_are_merged(client, test_name, tool, entries);
    let listed = merge_after(merge_start(client, test_name), ReplyView::Entries(entries));
    let args = merge_request(listed)->Some_0->Run_0.args;
    assert(raw_profiles(entries)[i] == entry);
    assert(args[i + 2] == joined(
        joined(client.output_dir, utf8(test_name)),
        stem + utf8(".profraw"@),
    ));
}

/// Without raw profile data in the listing there is nothing to merge, and no tool is run or searched
/// for. With any, the merge goes on.
pub proof fn law_merge_needs_profile_data(
    client: ClientView,
    test_name: Seq<char>,
    entries: Seq<Option<Seq<u8>>>,
)
    ensures
        ({
            let listed = merge_after(merge_start(client, test_name), ReplyView::Entries(entries));
            &&& raw_profiles(entries).len() == 0 <==> listed.stage is Done
            &&& raw_profiles(entries).len() == 0 ==> listed.stage == MergeStageView::Done(
                Err(ErrorView::Other("No profraw files found in test directory"@)),
            )
        }),
{
    lemma_picked_files(joined(client.output_dir, utf8(test_name)), entries);
}

/// Where `llvm-profdata` is not set, it is searched for once the directory is listed. What is then
/// merged, and into which file, does not depend on where it is found.
pub proof fn law_merge_does_not_depend_on_the_search(
    client: ClientView,
    test_name: Seq<char>,
    tool: Seq<u8>,
    entries: Seq<Option<Seq<u8>>>,
)
    requires
        client.llvm_profdata_path is None,
        raw_profiles(entries).len() > 0,
    ensures
        ({
            let set = ClientView { llvm_profdata_path: Some(tool), ..client };
            let listed = merge_after(merge_start(client, test_name), ReplyView::Entries(entries));
            let known = merge_after(merge_start(set, test_name), ReplyView::Entries(entries));
            &&& listed.stage matches MergeStageView::Searching { inputs, search } && {
                &&& search == search_start("llvm-profdata"@)
                &&& known.stage == (MergeStageView::Running { inputs, tool })
                &&& known.dir == listed.dir
            }
        }),
{
    lemma_picked_files(joined(client.output_dir, utf8(test_name)), entries);
}

/// A merge runs the `llvm-profdata` that a search for it has found, for the files that were listed.
/// A search that fails is the failure of the merge.
pub proof fn law_merge_runs_what_was_found(merge: MergeView, reply: ReplyView)
    ensures
        merge_after(merge, reply).dir == merge.dir,
        merge.stage matches MergeStageView::Searching { inputs, search } ==> {
            let after = merge_after(merge, reply);
            &&& merge_request(merge) == search_request(search)
            &&& match search_after(search, reply).stage {
                SearchStageView::Done(Ok(tool)) => after.stage == (MergeStageView::Running {
                    inputs,
                    tool,
                }),
                SearchStageView::Done(Err(error)) => after.stage == MergeStageView::Done(
                    Err(error),
                ),
                _ => after.stage == (MergeStageView::Searching {
                    inputs,
                    search: search_after(search, reply),
                }),
            }
        },
        merge.stage matches MergeStageView::Running { inputs, tool } ==> {
            &&& merge_request(merge) matches Some(RequestView::Run(command))
                && command.program == tool && command.args == seq![
                utf8("merge"@),
                utf8("--sparse"@),
            ] + inputs + seq![utf8("-o"@), joined(merge.dir, utf8("coverage.profdata"@))]
        },
{
}

/// What becomes of a merge is up to `llvm-profdata`: where it succeeds, the merge ends at the file
/// that the tool was told to write, and where it fails, so does the merge, with what it said.
pub proof fn law_merge_succeeds_with_its_tool(
    merge: MergeView,
    output: OutputView,
    reason: Seq<char>,
)
    requires
        merge.stage is Running,
    ensures
        merge_request(merge) matches Some(RequestView::Run(command)) && (output.success
            ==> merge_after(merge, ReplyView::Ran(output)).stage == MergeStageView::Done(
            Ok(command.args.last()),
        )),
        !output.success ==> merge_after(merge, ReplyView::Ran(output)).stage
            == MergeStageView::Done(
            Err(ErrorView::LlvmProfdata("llvm-profdata merge failed: "@ + shown(output.stderr))),
        ),
        merge_after(merge, ReplyView::Failed(reason)).stage == MergeStageView::Done(
            Err(ErrorView::Io(reason)),
        ),
{
}

} // verus!
