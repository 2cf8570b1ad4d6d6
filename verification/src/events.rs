//! The event dispatcher: which one-way notifications the UI receives in
//! answer to a host callback, and what they carry.

use vstd::prelude::*;
use crate::validator::{
    allowed_deep_links, allowed_launch_args, filter_deep_links, filter_launch_args,
    forwardable_arg, lemma_allowed_deep_links_valid, lemma_allowed_launch_args_forwardable,
    texts, valid_deep_link,
};
use crate::window::{raise_main_window, raise_ops_for, MainWindow, WindowOp};

verus! {

/// The error type of `serde_json`, `serde_json::Error`. It is opaque: the
/// gateway receives it from the parser and drops it without looking inside.
#[verifier::external_type_specification]
#[verifier::external_body]
pub struct ExJsonError(serde_json::Error);

/// What `serde_json::from_str` makes of `text` when asked for a list of
/// strings: the strings of the list in order, or `None` where it reports
/// an error.
pub uninterp spec fn json_string_list(text: Seq<char>) -> Option<Seq<Seq<char>>>;

/// Calls `serde_json::from_str` for a `Vec<String>`. Trusted: whether it
/// succeeds, and the list that it gives, depend on the text alone. Nothing
/// is claimed of which texts parse, nor to what.
#[verifier::external_body]
fn parse_string_list(text: &str) -> (r: Result<Vec<String>, serde_json::Error>)
    ensures
        match r {
            Ok(list) => json_string_list(text@) == Some(texts(list@)),
            Err(_) => json_string_list(text@) is None,
        },
{
    serde_json::from_str::<Vec<String>>(text)
}

/// What a `deep-link-received` event carries.
#[derive(Clone, Debug, PartialEq, Eq)]
pub struct DeepLinkPayload {
    /// The validated URLs, in the order in which they arrived.
    pub urls: Vec<String>,
}

impl DeepLinkPayload {
    /// What holds of every payload that the gateway makes: it carries at
    /// least one URL, and each of them is a valid deep link.
    pub open spec fn wf(self) -> bool {
        &&& self.urls@.len() > 0
        &&& forall|i: int| 0 <= i < self.urls@.len() ==> valid_deep_link(#[trigger] self.urls@[i]@)
    }
}

/// What a `single-instance` event carries.
#[derive(Clone, Debug, PartialEq, Eq)]
pub struct SingleInstancePayload {
    /// The launch arguments that may be forwarded, in their order.
    pub args: Vec<String>,
    /// The working directory of the process that was launched.
    pub cwd: String,
}

impl SingleInstancePayload {
    /// What holds of every payload that the gateway makes: each argument
    /// is a valid deep link or holds no `://`.
    pub open spec fn wf(self) -> bool {
        forall|i: int| 0 <= i < self.args@.len() ==> forwardable_arg(#[trigger] self.args@[i]@)
    }
}

/// What the gateway does when a second process is launched.
#[derive(Clone, Debug, PartialEq, Eq)]
pub struct SecondInstanceReaction {
    /// The calls that bring the existing main window to the front.
    pub window_ops: Vec<WindowOp>,
    /// The event to emit.
    pub event: SingleInstancePayload,
}

/// The URLs of the event that answers a parsed batch, or `None` where no
/// event is due: the batch did not parse, or none of its URLs is valid.
pub open spec fn deep_link_urls(parsed: Option<Seq<Seq<char>>>) -> Option<Seq<Seq<char>>> {
    match parsed {
        Some(urls) if allowed_deep_links(urls).len() > 0 => Some(allowed_deep_links(urls)),
        _ => None,
    }
}

/// No event is due for a batch without a valid URL, and an event that is
/// due carries at least one URL and valid deep links only.
pub proof fn lemma_deep_link_urls_never_empty(parsed: Option<Seq<Seq<char>>>)
    ensures
        match deep_link_urls(parsed) {
            Some(urls) => urls.len() > 0 && forall|i: int|
                0 <= i < urls.len() ==> valid_deep_link(#[trigger] urls[i]),
            None => parsed matches Some(batch) ==> allowed_deep_links(batch).len() == 0,
        },
{
    if let Some(batch) = parsed {
        lemma_allowed_deep_links_valid(batch);
    }
}

/// The URLs that an event carries, if there is one.
pub open spec fn carried_urls(event: Option<DeepLinkPayload>) -> Option<Seq<Seq<char>>> {
    match event {
        Some(payload) => Some(texts(payload.urls@)),
        None => None,
    }
}

/// The texts of a parsed batch, if there is one.
pub open spec fn batch_texts(parsed: Option<Vec<String>>) -> Option<Seq<Seq<char>>> {
    match parsed {
        Some(urls) => Some(texts(urls@)),
        None => None,
    }
}

/// The name of the event that announces validated deep links.
pub fn deep_link_event_name() -> (name: &'static str)
    ensures
        name@ == "deep-link-received"@,
{
    "deep-link-received"
}

/// The name of the event that announces a second launch.
pub fn single_instance_event_name() -> (name: &'static str)
    ensures
        name@ == "single-instance"@,
{
    "single-instance"
}

/// The name of the event that tells the UI that the channels are live.
pub fn ready_event_name() -> (name: &'static str)
    ensures
        name@ == "tauri-ready"@,
{
    "tauri-ready"
}

/// The name of the host's own signal that carries raw deep links.
pub fn deep_link_signal_name() -> (name: &'static str)
    ensures
        name@ == "deep-link://new-url"@,
{
    "deep-link://new-url"
}

/// The event for a batch of URLs: it carries the valid ones in their
/// order, and there is none where no URL of the batch is valid.
pub fn deep_link_event(urls: &Vec<String>) -> (event: Option<DeepLinkPayload>)
    ensures
        carried_urls(event) == deep_link_urls(Some(texts(urls@))),
        event matches Some(payload) ==> payload.wf(),
{
    let kept = filter_deep_links(urls);
    proof {
        lemma_allowed_deep_links_valid(texts(urls@));
        assert forall|i: int| 0 <= i < kept@.len() implies valid_deep_link(#[trigger] kept@[i]@) by {
            assert(texts(kept@)[i] == kept@[i]@);
        }
    }
    if kept.len() == 0 {
        None
    } else {
        Some(DeepLinkPayload { urls: kept })
    }
}

/// The event for the outcome of parsing a raw payload: none where the
/// payload did not parse, else that of the batch.
pub fn deep_link_event_for(parsed: Option<Vec<String>>) -> (event: Option<DeepLinkPayload>)
    ensures
        carried_urls(event) == deep_link_urls(batch_texts(parsed)),
        event matches Some(payload) ==> payload.wf(),
{
    match parsed {
        Some(urls) => deep_link_event(&urls),
        None => None,
    }
}

/// The event for a raw payload of the host's deep-link signal, which is
/// expected to be a JSON list of strings. A payload that does not parse as
/// such is dropped without an event and without an error.
pub fn on_deep_link_payload(payload: &str) -> (event: Option<DeepLinkPayload>)
    ensures
        carried_urls(event) == deep_link_urls(json_string_list(payload@)),
        event matches Some(p) ==> p.wf(),
{
    let parsed = match parse_string_list(payload) {
        Ok(urls) => Some(urls),
        Err(_) => None,
    };
    deep_link_event_for(parsed)
}

/// The event for a second launch. There always is one: it carries the
/// launch arguments that may be forwarded, in their order, and the working
/// directory as it was given.
pub fn single_instance_event(args: &Vec<String>, cwd: String) -> (payload: SingleInstancePayload)
    ensures
        texts(payload.args@) == allowed_launch_args(texts(args@)),
        payload.cwd@ == cwd@,
        payload.wf(),
{
    let kept = filter_launch_args(args);
    proof {
        lemma_allowed_launch_args_forwardable(texts(args@));
        assert forall|i: int| 0 <= i < kept@.len() implies forwardable_arg(#[trigger] kept@[i]@) by {
            assert(texts(kept@)[i] == kept@[i]@);
        }
    }
    SingleInstancePayload { args: kept, cwd }
}

/// What happens on a second launch: the main window is brought to the
/// front where it exists, and the event is emitted in any case.
pub fn on_second_instance(window: MainWindow, args: &Vec<String>, cwd: String) -> (reaction:
    SecondInstanceReaction)
    ensures
        reaction.window_ops@ == raise_ops_for(window),
        texts(reaction.event.args@) == allowed_launch_args(texts(args@)),
        reaction.event.cwd@ == cwd@,
        reaction.event.wf(),
{
    SecondInstanceReaction {
        window_ops: raise_main_window(window),
        event: single_instance_event(args, cwd),
    }
}

} // verus!
