//! What the controller contributes besides moving events along: the
//! requests that set the player up, and the period of the heartbeat.

use vstd::prelude::*;
use crate::mpv::{Property, Request, RequestModel};

verus! {

/// A failure of the controller, in words.
#[derive(Clone, Debug, PartialEq, Eq)]
pub struct LogicError {
    pub reason: String,
}

/// The time between two heartbeats, in milliseconds.
pub const UPKEEP_MS: u64 = 500;

/// The capacity of every queue between the components.
pub const CHANNEL_SIZE: usize = 256;

/// The requests sent to the player at start, in this order: show that the
/// program is starting, pause, bind `F1` to the ready message, and observe
/// the position, the speed and whether the player is seeking.
pub fn init_sequence() -> (r: Vec<Request>)
    ensures
        r@.len() == 6,
        r@[0]@ == RequestModel::osd_overlay("synco v3: inititializing..."@),
        r@[1]@ == RequestModel::set_pause(true),
        r@[2]@ == RequestModel::keybind("F1"@, "script_message ready_pressed"@),
        r@[3]@ == RequestModel::observe_property(Property::TimePos),
        r@[4]@ == RequestModel::observe_property(Property::Speed),
        r@[5]@ == RequestModel::observe_property(Property::Seeking),
{
    let mut seq: Vec<Request> = Vec::new();
    seq.push(Request::osd_overlay("synco v3: inititializing..."));
    seq.push(Request::set_pause(true));
    seq.push(Request::keybind("F1", "script_message ready_pressed"));
    seq.push(Request::observe_property(Property::TimePos));
    seq.push(Request::observe_property(Property::Speed));
    seq.push(Request::observe_property(Property::Seeking));
    seq
}

} // verus!
