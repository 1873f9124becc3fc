//! The live-sync channel, as a verified state machine.
//!
//! When dynamic configuration is enabled, the host keeps a server-push stream
//! open against the authority's event URL for the life of the process.  The
//! host owns the socket; this module decides, for every connection event and
//! every pushed message, the next channel state and the action to take:
//! reconnect with bounded exponential backoff, refresh the policy bundle on a
//! configuration change, or write a status-list update into the revocation
//! status cache.  A dropped stream is recovered here and never surfaced to
//! the bootstrap caller.

use vstd::prelude::*;
use crate::json::{
    json_str_list_member,
    json_str_list_member_of,
    json_str_member,
    json_str_member_of,
    json_u64_member,
    json_u64_member_of,
};

verus! {

/// The delay before the first reconnect attempt, in milliseconds.
pub const INITIAL_BACKOFF_MILLIS: u64 = 1000;

/// The bound on the reconnect delay, in milliseconds.
pub const MAX_BACKOFF_MILLIS: u64 = 60000;

/// Where the channel stands.  `Closed` is terminal and reached only by an
/// explicit shutdown.
pub enum SyncState {
    Disconnected,
    Connecting,
    Streaming,
    Reconnecting { delay_millis: u64 },
    Closed,
}

/// What the stream delivered to the channel.
pub enum SyncInput {
    /// The host wants the channel up (initial start, or a backoff expired).
    Connect,
    /// The stream opened.
    Opened,
    /// The stream pushed an event with this name and payload.
    Message { name: String, data: Vec<u8> },
    /// The stream dropped, or an open attempt failed.
    Dropped,
    /// The owning process tears the channel down.
    Shutdown,
}

/// A pushed event, decoded.
pub enum SyncEvent {
    /// The authority's configuration changed: the host should re-fetch the
    /// policy bundle.
    ConfigChanged,
    /// A status list changed: the host should upsert this entry into the
    /// revocation status cache.
    StatusUpdate { identifier: String, status: u8, tokens: Vec<String> },
}

/// What the host must do next.
pub enum SyncAction {
    /// Open the stream.
    OpenStream,
    /// Re-fetch the policy bundle.
    RefreshBundle,
    /// Replace the cache entry for this identifier with this pair.
    ApplyStatusUpdate { identifier: String, status: u8, tokens: Vec<String> },
    /// Wait this long, then hand `Connect` back to the channel.
    Backoff { delay_millis: u64 },
    /// Nothing to do.
    Ignore,
    /// The channel is down for good.
    Stop,
}

/// The next reconnect delay: doubled, bounded by `MAX_BACKOFF_MILLIS`.
pub open spec fn spec_next_backoff(delay: u64) -> u64 {
    if delay <= MAX_BACKOFF_MILLIS / 2 {
        (2 * delay) as u64
    } else {
        MAX_BACKOFF_MILLIS
    }
}

/// Double a reconnect delay, staying within the bound.
pub fn next_backoff(delay: u64) -> (r: u64)
    ensures
        r == spec_next_backoff(delay),
{
    if delay <= MAX_BACKOFF_MILLIS / 2 {
        2 * delay
    } else {
        MAX_BACKOFF_MILLIS
    }
}

/// What a pushed event means, as a function of its name and payload: a
/// `config-changed` event however its payload reads; a `status-update` event
/// whose payload carries the identifier, a one-byte status and the token
/// list; nothing otherwise.
pub open spec fn sync_event_rel(name: Seq<char>, data: Seq<u8>, r: Option<SyncEvent>) -> bool {
    if name == "config-changed"@ {
        r matches Some(e) && e is ConfigChanged
    } else if name == "status-update"@ {
        match (
            json_str_member_of(data, "identifier"@),
            json_u64_member_of(data, "status"@),
            json_str_list_member_of(data, "tokens"@),
        ) {
            (Some(id), Some(code), Some(toks)) => if code <= 255 {
                r matches Some(e) && e matches SyncEvent::StatusUpdate {
                    identifier,
                    status,
                    tokens,
                } && identifier@ == id && status == code && tokens@.map_values(|t: String| t@)
                    == toks
            } else {
                r is None
            },
            _ => r is None,
        }
    } else {
        r is None
    }
}

/// Decode one pushed event.  Returns `None` exactly for an unknown event
/// name or an unreadable status-update payload.
pub fn parse_sync_event(name: &str, data: &[u8]) -> (r: Option<SyncEvent>)
    ensures
        sync_event_rel(name@, data@, r),
{
    let owned = name.to_owned();
    if owned == String::from_str("config-changed") {
        Some(SyncEvent::ConfigChanged)
    } else if owned == String::from_str("status-update") {
        let identifier = json_str_member(data, "identifier");
        let status = json_u64_member(data, "status");
        let tokens = json_str_list_member(data, "tokens");
        match (identifier, status, tokens) {
            (Some(identifier), Some(code), Some(tokens)) => {
                if code <= 255 {
                    Some(
                        SyncEvent::StatusUpdate { identifier, status: code as u8, tokens },
                    )
                } else {
                    None
                }
            },
            _ => None,
        }
    } else {
        None
    }
}

/// The full transition relation of the channel:
/// `Disconnected -> Connecting -> Streaming`, back through `Reconnecting`
/// with doubled bounded delay on every drop, and `Closed` only on shutdown.
pub open spec fn sync_step_rel(
    pre: SyncState,
    input: SyncInput,
    post: SyncState,
    action: SyncAction,
) -> bool {
    match input {
        SyncInput::Shutdown => post is Closed && action is Stop,
        SyncInput::Connect => match pre {
            SyncState::Disconnected => post is Connecting && action is OpenStream,
            SyncState::Reconnecting { .. } => post is Connecting && action is OpenStream,
            SyncState::Closed => post is Closed && action is Stop,
            _ => post == pre && action is Ignore,
        },
        SyncInput::Opened => match pre {
            SyncState::Connecting => post is Streaming && action is Ignore,
            SyncState::Closed => post is Closed && action is Stop,
            _ => post == pre && action is Ignore,
        },
        SyncInput::Dropped => match pre {
            SyncState::Connecting | SyncState::Streaming => {
                &&& post matches SyncState::Reconnecting { delay_millis } && delay_millis
                    == INITIAL_BACKOFF_MILLIS
                &&& action matches SyncAction::Backoff { delay_millis } && delay_millis
                    == INITIAL_BACKOFF_MILLIS
            },
            SyncState::Reconnecting { delay_millis: previous } => {
                &&& post matches SyncState::Reconnecting { delay_millis } && delay_millis
                    == spec_next_backoff(previous)
                &&& action matches SyncAction::Backoff { delay_millis } && delay_millis
                    == spec_next_backoff(previous)
            },
            SyncState::Closed => post is Closed && action is Stop,
            SyncState::Disconnected => post == pre && action is Ignore,
        },
        SyncInput::Message { name, data } => match pre {
            SyncState::Streaming => {
                &&& post is Streaming
                &&& match (name@ == "config-changed"@, name@ == "status-update"@) {
                    (true, _) => action is RefreshBundle,
                    (false, true) => match (
                        json_str_member_of(data@, "identifier"@),
                        json_u64_member_of(data@, "status"@),
                        json_str_list_member_of(data@, "tokens"@),
                    ) {
                        (Some(id), Some(code), Some(toks)) => if code <= 255 {
                            action matches SyncAction::ApplyStatusUpdate {
                                identifier,
                                status,
                                tokens,
                            } && identifier@ == id && status == code && tokens@.map_values(
                                |t: String| t@,
                            ) == toks
                        } else {
                            action is Ignore
                        },
                        _ => action is Ignore,
                    },
                    _ => action is Ignore,
                }
            },
            SyncState::Closed => post is Closed && action is Stop,
            _ => post == pre && action is Ignore,
        },
    }
}

/// Law: the reconnect delay never exceeds its bound.
pub proof fn lemma_backoff_bounded(
    pre: SyncState,
    input: SyncInput,
    post: SyncState,
    action: SyncAction,
)
    requires
        sync_step_rel(pre, input, post, action),
        pre matches SyncState::Reconnecting { delay_millis } ==> delay_millis
            <= MAX_BACKOFF_MILLIS,
    ensures
        post matches SyncState::Reconnecting { delay_millis } ==> delay_millis
            <= MAX_BACKOFF_MILLIS,
        action matches SyncAction::Backoff { delay_millis } ==> delay_millis
            <= MAX_BACKOFF_MILLIS,
{
}

/// Law: the terminal state is reached only by an explicit shutdown (or was
/// already terminal).
pub proof fn lemma_closed_only_by_shutdown(
    pre: SyncState,
    input: SyncInput,
    post: SyncState,
    action: SyncAction,
)
    requires
        sync_step_rel(pre, input, post, action),
        post is Closed,
    ensures
        pre is Closed || input is Shutdown,
{
}

/// Law: a dropped stream is recovered inside the channel: it never closes
/// the channel and never stops the host's loop.
pub proof fn lemma_drop_is_recovered(
    pre: SyncState,
    input: SyncInput,
    post: SyncState,
    action: SyncAction,
)
    requires
        sync_step_rel(pre, input, post, action),
        !(pre is Closed),
        input is Dropped,
    ensures
        !(post is Closed),
        !(action is Stop),
{
}

/// Advance the channel by one input.
pub fn sync_step(state: SyncState, input: SyncInput) -> (r: (SyncState, SyncAction))
    ensures
        sync_step_rel(state, input, r.0, r.1),
{
    match input {
        SyncInput::Shutdown => (SyncState::Closed, SyncAction::Stop),
        SyncInput::Connect => match state {
            SyncState::Disconnected | SyncState::Reconnecting { .. } => (
                SyncState::Connecting,
                SyncAction::OpenStream,
            ),
            SyncState::Closed => (SyncState::Closed, SyncAction::Stop),
            other => (other, SyncAction::Ignore),
        },
        SyncInput::Opened => match state {
            SyncState::Connecting => (SyncState::Streaming, SyncAction::Ignore),
            SyncState::Closed => (SyncState::Closed, SyncAction::Stop),
            other => (other, SyncAction::Ignore),
        },
        SyncInput::Dropped => match state {
            SyncState::Connecting | SyncState::Streaming => (
                SyncState::Reconnecting { delay_millis: INITIAL_BACKOFF_MILLIS },
                SyncAction::Backoff { delay_millis: INITIAL_BACKOFF_MILLIS },
            ),
            SyncState::Reconnecting { delay_millis } => {
                let next = next_backoff(delay_millis);
                (
                    SyncState::Reconnecting { delay_millis: next },
                    SyncAction::Backoff { delay_millis: next },
                )
            },
            SyncState::Closed => (SyncState::Closed, SyncAction::Stop),
            SyncState::Disconnected => (SyncState::Disconnected, SyncAction::Ignore),
        },
        SyncInput::Message { name, data } => match state {
            SyncState::Streaming => {
                let action = match parse_sync_event(name.as_str(), data.as_slice()) {
                    Some(SyncEvent::ConfigChanged) => SyncAction::RefreshBundle,
                    Some(SyncEvent::StatusUpdate { identifier, status, tokens }) =>
                        SyncAction::ApplyStatusUpdate { identifier, status, tokens },
                    None => SyncAction::Ignore,
                };
                (SyncState::Streaming, action)
            },
            SyncState::Closed => (SyncState::Closed, SyncAction::Stop),
            other => (other, SyncAction::Ignore),
        },
    }
}

} // verus!
