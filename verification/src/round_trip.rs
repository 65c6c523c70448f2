//! The way of a profile from the server to the merged file: what holds of both sides together.

use crate::client::{test_dir, ClientView};
use crate::collect::{
    collect_after, collect_request, collect_run, collect_start, CollectStageView,
};
use crate::encoding::{base64_decoded, Base64Error};
use crate::headers::IdentityView;
use crate::merge::profraw_files;
use crate::path::{is_profraw_name, joined};
use crate::request::{ReplyView, RequestView, ResponseView};
use crate::server::{
    coverage_answer, law_served_file_is_profile_data, nanosecond_stamp, profraw_filename,
    AnswerView, ServedView,
};
use crate::text::utf8;
use vstd::prelude::*;

verus! {

/// The answer of a server, as a client reads it.
pub open spec fn as_read(answer: ServedView) -> ResponseView {
    ResponseView {
        profraw_filename: answer.profraw_filename,
        profraw_data: answer.profraw_data,
        timestamp: answer.timestamp,
        coverage_enabled: answer.coverage_enabled,
    }
}

/// Where a client puts the profile of a process at a moment.
pub open spec fn profile_path(
    client: ClientView,
    test_name: Seq<char>,
    pid: u32,
    nanos: Option<u128>,
) -> Seq<u8> {
    joined(
        test_dir(client, test_name),
        utf8(profraw_filename(pid, nanosecond_stamp(nanos))),
    )
}

/// A client that reads the answer that [`crate::server::handle_coverage`] gives to a profile
/// writes exactly the bytes of that profile, to the file that the server names, and ends with
/// the path of that file.
pub proof fn law_profile_arrives_as_it_was(
    client: ClientView,
    url: Seq<char>,
    test_name: Seq<char>,
    identity: IdentityView,
    profile: Seq<u8>,
    nanos: Option<u128>,
    answer: AnswerView,
)
    requires
        answer == coverage_answer(identity, Ok(profile), nanos),
        base64_decoded(answer.body->Coverage_0.profraw_data) == Ok::<Seq<u8>, Base64Error>(profile),
    ensures
        ({
            let read = collect_run(
                collect_start(url, test_name, test_dir(client, test_name)),
                seq![
                    ReplyView::Done,
                    ReplyView::Status(answer.status),
                    ReplyView::Coverage(as_read(answer.body->Coverage_0)),
                ],
            );
            let path = profile_path(client, test_name, identity.pid, nanos);
            &&& collect_request(read) == Some(RequestView::WriteFile { path, contents: profile })
            &&& collect_after(read, ReplyView::Done).stage == CollectStageView::Done(Ok(path))
        }),
{
    let response = as_read(answer.body->Coverage_0);
    let replies = seq![
        ReplyView::Done,
        ReplyView::Status(answer.status),
        ReplyView::Coverage(response),
    ];
    reveal_with_fuel(collect_run, 4);
    assert(replies.skip(1)[0] == ReplyView::Status(answer.status));
    assert(replies.skip(1).skip(1)[0] == ReplyView::Coverage(response));
}

/// A profile that has arrived is merged: wherever the listing of the test's directory holds the
/// file that the server named, the merge takes it in.
pub proof fn law_arrived_profile_is_merged(
    client: ClientView,
    test_name: Seq<char>,
    pid: u32,
    nanos: Option<u128>,
    names: Seq<Seq<u8>>,
)
    requires
        names.contains(utf8(profraw_filename(pid, nanosecond_stamp(nanos)))),
    ensures
        profraw_files(test_dir(client, test_name), names).contains(
            profile_path(client, test_name, pid, nanos),
        ),
{
    broadcast use vstd::seq_lib::group_filter_ensures;

    let dir = test_dir(client, test_name);
    let name = utf8(profraw_filename(pid, nanosecond_stamp(nanos)));
    let wanted = |name: Seq<u8>| is_profraw_name(name);
    law_served_file_is_profile_data(pid, nanosecond_stamp(nanos), dir);
    let i = names.index_of(name);
    let picked = names.filter(wanted);
    assert(picked.contains(names[i]));
    let k = picked.index_of(name);
    assert(profraw_files(dir, names)[k] == joined(dir, name));
}

} // verus!
