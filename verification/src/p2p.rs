//! What the gossip side computes itself: the envelope of an outgoing
//! action and the id under which a payload is known to the overlay.

use vstd::prelude::*;
use vstd::string::StringExecFns;
use crate::proto::{Action, Message};
use crate::text::{natural_text, push_natural};

verus! {

/// A failure of the gossip side, in words.
#[derive(Clone, Debug, PartialEq, Eq)]
pub struct LogicError {
    pub reason: String,
}

/// The time between two pings of a connected peer, in milliseconds.
pub const PING_INTERVAL_MS: u64 = 2000;

/// The time between two heartbeats of the overlay, in milliseconds.
pub const GOSSIP_HEARTBEAT_MS: u64 = 10000;

/// Wraps an action for publishing: the sender is this participant and the
/// timestamp is its wall clock, in milliseconds since the epoch.
pub fn outgoing(user_id: &str, now_ms: u64, action: Action) -> (m: Message)
    ensures
        m.user_id@ == user_id@,
        m.ts == now_ms,
        m.action == action,
{
    Message { user_id: String::from_str(user_id), ts: now_ms, action }
}

/// The message id for a payload with the given 64-bit hash: the hash in
/// decimal.
pub fn message_id(hash: u64) -> (r: String)
    ensures
        r@ == natural_text(hash as nat),
{
    let mut s: String = String::new();
    push_natural(&mut s, hash);
    assert(s@ =~= natural_text(hash as nat));
    s
}

/// What the gossip side does next.
#[derive(Clone, Debug, PartialEq, Eq)]
pub enum NextStep {
    /// Go on waiting.
    Nothing,
    /// Leave the topic and return.
    Stop,
    /// Publish this message.
    Send(Message),
}

/// Decides what follows a look at the control queue: an action that was
/// received is wrapped and published; a closed queue ends the adapter.
pub fn after_control(user_id: &str, now_ms: u64, received: Option<Action>) -> (r: NextStep)
    ensures
        match received {
            Some(action) => r matches NextStep::Send(m) && m.user_id@ == user_id@ && m.ts == now_ms
                && m.action == action,
            None => r == NextStep::Stop,
        },
{
    match received {
        Some(action) => NextStep::Send(outgoing(user_id, now_ms, action)),
        None => NextStep::Stop,
    }
}

/// Whether a peer whose discovery record expired stops being a given
/// target of publishing: only when discovery no longer lists it at all.
pub fn forget_expired(still_listed: bool) -> (r: bool)
    ensures
        r == !still_listed,
{
    !still_listed
}

} // verus!
