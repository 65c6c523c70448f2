//! The pod that coverage is collected from.

use crate::client::{ClientView, CoverageClient};
use crate::error::{CoverageError, ErrorView};
use crate::path::FilePath;
use crate::request::{
    answers, byte_strings, less, push_text, request_or_none, text_outcome, CommandLine, CommandView,
    Left, OutputView, Reply, ReplyView, Request, RequestView,
};
use crate::text::{
    concat_texts, is_white_space, law_bytes_tell_the_text, law_trimmed_text_has_no_space_around,
    show_bytes, shown, text_or_none, trim_text, trimmed, utf8,
};
use vstd::prelude::*;
use vstd::string::*;

verus! {

/// How far a lookup has come.
#[derive(Debug, PartialEq, Eq)]
pub enum LookupStage {
    /// `kubectl` is asked.
    Asking,
    /// The pod is known, or there is none.
    Done(Result<String, CoverageError>),
}

/// The model of a [`LookupStage`].
#[verifier::ext_equal]
pub enum LookupStageView {
    Asking,
    Done(Result<Seq<char>, ErrorView>),
}

impl View for LookupStage {
    type V = LookupStageView;

    open spec fn view(&self) -> LookupStageView {
        match *self {
            LookupStage::Asking => LookupStageView::Asking,
            LookupStage::Done(outcome) => LookupStageView::Done(text_outcome(outcome)),
        }
    }
}

/// A lookup of the name of a pod.
#[derive(Debug, PartialEq, Eq)]
pub struct PodLookup {
    pub namespace: String,
    /// The label selector.
    pub selector: String,
    pub stage: LookupStage,
}

/// The model of a [`PodLookup`].
#[verifier::ext_equal]
pub struct LookupView {
    pub namespace: Seq<char>,
    pub selector: Seq<char>,
    pub stage: LookupStageView,
}

impl View for PodLookup {
    type V = LookupView;

    open spec fn view(&self) -> LookupView {
        LookupView { namespace: self.namespace@, selector: self.selector@, stage: self.stage@ }
    }
}

/// The command that prints the name of the first running pod that a selector picks.
pub open spec fn lookup_command(namespace: Seq<char>, selector: Seq<char>) -> CommandView {
    CommandView {
        program: utf8("kubectl"@),
        args: seq![
            utf8("get"@),
            utf8("pods"@),
            utf8("-n"@),
            utf8(namespace),
            utf8("-l"@),
            utf8(selector),
            utf8("--field-selector=status.phase=Running"@),
            utf8("-o"@),
            utf8("jsonpath={.items[0].metadata.name}"@),
        ],
    }
}

/// A lookup by a selector that has just begun.
pub open spec fn lookup_start(client: ClientView, selector: Seq<char>) -> LookupView {
    LookupView { namespace: client.namespace, selector, stage: LookupStageView::Asking }
}

/// What a lookup asks for next, until it is over.
pub open spec fn lookup_request(lookup: LookupView) -> Option<RequestView> {
    match lookup.stage {
        LookupStageView::Asking => Some(
            RequestView::Run(lookup_command(lookup.namespace, lookup.selector)),
        ),
        LookupStageView::Done(_) => None,
    }
}

/// The stage of a lookup after a reply. A reply of another kind than the request calls for
/// changes nothing.
pub open spec fn lookup_stage_after(lookup: LookupView, reply: ReplyView) -> LookupStageView {
    match (lookup.stage, reply) {
        (LookupStageView::Asking, ReplyView::Failed(reason)) => LookupStageView::Done(
            Err(ErrorView::Kubectl("Failed to run kubectl: "@ + reason)),
        ),
        (
            LookupStageView::Asking,
            ReplyView::Ran(output),
        ) => if !output.success {
            LookupStageView::Done(
                Err(ErrorView::Kubectl("kubectl get pods failed: "@ + shown(output.stderr))),
            )
        } else if trimmed(shown(output.stdout)).len() == 0 {
            LookupStageView::Done(
                Err(
                    ErrorView::Kubectl(
                        "No running pod found with selector: "@ + lookup.selector,
                    ),
                ),
            )
        } else {
            LookupStageView::Done(Ok(trimmed(shown(output.stdout))))
        },
        (stage, _) => stage,
    }
}

/// A lookup after a reply.
pub open spec fn lookup_after(lookup: LookupView, reply: ReplyView) -> LookupView {
    LookupView { stage: lookup_stage_after(lookup, reply), ..lookup }
}

/// The lookup for a pod that is named, or else picked by a selector.
pub open spec fn pod_choice(
    client: ClientView,
    pod: Option<Seq<char>>,
    selector: Option<Seq<char>>,
) -> LookupView {
    match (pod, selector) {
        (Some(name), _) => LookupView {
            namespace: client.namespace,
            selector: Seq::empty(),
            stage: LookupStageView::Done(Ok(name)),
        },
        (None, Some(selector)) => lookup_start(client, selector),
        (None, None) => LookupView {
            namespace: client.namespace,
            selector: Seq::empty(),
            stage: LookupStageView::Done(
                Err(ErrorView::Other("Either --pod or --selector must be provided"@)),
            ),
        },
    }
}

impl CoverageClient {
    /// Begins to look for a running pod in the client's namespace, by a label selector.
    pub fn get_pod_name(&self, label_selector: &str) -> (r: PodLookup)
        ensures
            r@ == lookup_start(self@, label_selector@),
    {
        PodLookup {
            namespace: self.namespace.clone(),
            selector: label_selector.to_owned(),
            stage: LookupStage::Asking,
        }
    }
}

/// Begins to look for a pod: one that is named is taken as it is, any other is picked by its
/// selector.
pub fn resolve_pod(client: &CoverageClient, pod: Option<String>, selector: Option<String>) -> (r:
    PodLookup)
    ensures
        r@ == pod_choice(
            client@,
            text_or_none(pod),
            text_or_none(selector),
        ),
{
    match (pod, selector) {
        (Some(name), _) => PodLookup {
            namespace: client.namespace.clone(),
            selector: String::new(),
            stage: LookupStage::Done(Ok(name)),
        },
        (None, Some(selector)) => client.get_pod_name(selector.as_str()),
        (None, None) => PodLookup {
            namespace: client.namespace.clone(),
            selector: String::new(),
            stage: LookupStage::Done(
                Err(
                    CoverageError::Other("Either --pod or --selector must be provided".to_owned()),
                ),
            ),
        },
    }
}

impl PodLookup {
    /// What is to be done next, until the pod is known or there is none.
    pub fn request(&self) -> (r: Option<Request>)
        ensures
            request_or_none(r) == lookup_request(self@),
    {
        match &self.stage {
            LookupStage::Asking => {
                let mut args: Vec<Vec<u8>> = Vec::new();
                push_text(&mut args, "get");
                push_text(&mut args, "pods");
                push_text(&mut args, "-n");
                push_text(&mut args, self.namespace.as_str());
                push_text(&mut args, "-l");
                push_text(&mut args, self.selector.as_str());
                push_text(&mut args, "--field-selector=status.phase=Running");
                push_text(&mut args, "-o");
                push_text(&mut args, "jsonpath={.items[0].metadata.name}");
                proof {
                    assert(byte_strings(args@) =~= lookup_command(
                        self.namespace@,
                        self.selector@,
                    ).args);
                }
                Some(Request::Run(CommandLine { program: FilePath::from_text("kubectl"), args }))
            },
            LookupStage::Done(_) => None,
        }
    }

    /// Goes on with what became of the request.
    pub fn resume(self, reply: Reply) -> (r: PodLookup)
        ensures
            r@ == lookup_after(self@, reply@),
    {
        let PodLookup { namespace, selector, stage } = self;
        let next = match (stage, reply) {
            (LookupStage::Asking, Reply::Failed(reason)) => LookupStage::Done(
                Err(
                    CoverageError::Kubectl(
                        concat_texts("Failed to run kubectl: ", reason.as_str()),
                    ),
                ),
            ),
            (LookupStage::Asking, Reply::Ran(output)) => {
                if !output.success {
                    LookupStage::Done(
                        Err(
                            CoverageError::Kubectl(
                                concat_texts(
                                    "kubectl get pods failed: ",
                                    show_bytes(&output.stderr).as_str(),
                                ),
                            ),
                        ),
                    )
                } else {
                    let name = trim_text(show_bytes(&output.stdout).as_str());
                    if name.as_str().is_empty() {
                        LookupStage::Done(
                            Err(
                                CoverageError::Kubectl(
                                    concat_texts(
                                        "No running pod found with selector: ",
                                        selector.as_str(),
                                    ),
                                ),
                            ),
                        )
                    } else {
                        LookupStage::Done(Ok(name))
                    }
                }
            },
            (stage, _) => stage,
        };
        PodLookup { namespace, selector, stage: next }
    }
}

/// What is left to do of a lookup.
pub open spec fn lookup_left(lookup: LookupView) -> Left {
    match lookup.stage {
        LookupStageView::Asking => Left { parts: 1, stages: 0, items: 0 },
        LookupStageView::Done(_) => Left { parts: 0, stages: 0, items: 0 },
    }
}

/// A lookup asks until it is over. A reply that its request may get takes it on, so that less
/// is left to do; any other changes nothing.
pub proof fn law_lookup_goes_on(lookup: LookupView, reply: ReplyView)
    ensures
        lookup_request(lookup) is None <==> lookup.stage is Done,
        lookup_request(lookup) is None ==> lookup_after(lookup, reply) == lookup,
        lookup_request(lookup) is Some && !answers(lookup_request(lookup)->Some_0, reply) ==> lookup_after(lookup, reply) == lookup,
        lookup_request(lookup) is Some && answers(lookup_request(lookup)->Some_0, reply) ==> less(
            lookup_left(lookup_after(lookup, reply)),
            lookup_left(lookup),
        ),
{
}

/// The name of a pod that `kubectl` was asked for is never empty, and has no white space around
/// it.
pub proof fn law_found_name_is_clean(lookup: LookupView, reply: ReplyView)
    requires
        lookup.stage is Asking,
    ensures
        lookup_after(lookup, reply).stage matches LookupStageView::Done(Ok(name)) ==> name.len() > 0
            && !is_white_space(name[0]) && !is_white_space(name.last()),
{
    match reply {
        ReplyView::Ran(output) => {
            law_trimmed_text_has_no_space_around(shown(output.stdout));
        },
        _ => {},
    }
}

/// A lookup asks `kubectl` for the pods of the client's namespace that its selector picks, of those
/// that run, and for the name of the first.
pub proof fn law_lookup_asks_by_namespace_and_selector(client: ClientView, selector: Seq<char>)
    ensures
        lookup_request(lookup_start(client, selector)) matches Some(RequestView::Run(command)) && {
            &&& command.program == utf8("kubectl"@)
            &&& command.args.len() == 9
            &&& command.args[0] == utf8("get"@)
            &&& command.args[1] == utf8("pods"@)
            &&& command.args[2] == utf8("-n"@)
            &&& command.args[3] == utf8(client.namespace)
            &&& command.args[4] == utf8("-l"@)
            &&& command.args[5] == utf8(selector)
            &&& command.args[6] == utf8("--field-selector=status.phase=Running"@)
            &&& command.args[7] == utf8("-o"@)
            &&& command.args[8] == utf8("jsonpath={.items[0].metadata.name}"@)
        },
{
}

/// Lookups in different namespaces, or by different selectors, run different commands.
pub proof fn law_lookups_are_told_apart(
    client: ClientView,
    selector: Seq<char>,
    other_client: ClientView,
    other_selector: Seq<char>,
)
    requires
        lookup_request(lookup_start(client, selector)) == lookup_request(
            lookup_start(other_client, other_selector),
        ),
    ensures
        client.namespace == other_client.namespace,
        selector == other_selector,
{
    let command = lookup_request(lookup_start(client, selector))->Some_0->Run_0;
    let other = lookup_request(lookup_start(other_client, other_selector))->Some_0->Run_0;
    assert(command.args[3] == other.args[3]);
    assert(command.args[5] == other.args[5]);
    law_bytes_tell_the_text(client.namespace, Seq::empty());
    law_bytes_tell_the_text(other_client.namespace, Seq::empty());
    law_bytes_tell_the_text(selector, Seq::empty());
    law_bytes_tell_the_text(other_selector, Seq::empty());
}

/// A lookup finds a pod exactly where `kubectl` succeeds and prints more than white space, and the
/// name is what it printed without the white space around it. Else it fails: with what `kubectl`
/// said, with why it could not run, or with the selector that no pod has.
pub proof fn law_lookup_takes_what_kubectl_printed(
    client: ClientView,
    selector: Seq<char>,
    output: OutputView,
    reason: Seq<char>,
)
    ensures
        ({
            let start = lookup_start(client, selector);
            let printed = trimmed(shown(output.stdout));
            let after = lookup_after(start, ReplyView::Ran(output)).stage;
            &&& output.success && printed.len() > 0 ==> after == LookupStageView::Done(Ok(printed))
            &&& output.success && printed.len() == 0 ==> after == LookupStageView::Done(
                Err(ErrorView::Kubectl("No running pod found with selector: "@ + selector)),
            )
            &&& !output.success ==> after == LookupStageView::Done(
                Err(ErrorView::Kubectl("kubectl get pods failed: "@ + shown(output.stderr))),
            )
            &&& lookup_after(start, ReplyView::Failed(reason)).stage == LookupStageView::Done(
                Err(ErrorView::Kubectl("Failed to run kubectl: "@ + reason)),
            )
        }),
{
}

/// A pod that is named is taken as it is, whatever the selector, and `kubectl` is not asked. Without
/// a name the selector picks the pod, and without both there is none.
pub proof fn law_named_pod_is_taken(
    client: ClientView,
    name: Seq<char>,
    selector: Option<Seq<char>>,
    picked: Seq<char>,
)
    ensures
        lookup_request(pod_choice(client, Some(name), selector)) is None,
        pod_choice(client, Some(name), selector).stage == LookupStageView::Done(Ok(name)),
        pod_choice(client, None, Some(picked)) == lookup_start(client, picked),
        pod_choice(client, None, None).stage == LookupStageView::Done(
            Err(ErrorView::Other("Either --pod or --selector must be provided"@)),
        ),
{
}

} // verus!
