//! The messages that peers exchange, and the mapping between a message and
//! the flat set of short-named fields that travels on the wire.

use vstd::prelude::*;
use vstd::string::StringExecFns;
use crate::model::MessageModel;
use crate::text::same_text;

verus! {

/// One intent announced to the other peers. Positions are in milliseconds,
/// speeds in thousandths of the normal rate.
#[derive(Clone, Copy, Debug, PartialEq, Eq, Structural)]
pub enum Action {
    Hello,
    Ready,
    Unready,
    Seek { pos: i64 },
    Position { pos: i64 },
    Speed { speed: i64 },
}

/// An action together with its sender and the sender's wall clock, in
/// milliseconds since the epoch.
#[derive(Clone, Debug, PartialEq, Eq)]
pub struct Message {
    pub user_id: String,
    pub ts: u64,
    pub action: Action,
}

impl View for Message {
    type V = MessageModel;

    open spec fn view(&self) -> MessageModel {
        MessageModel { user_id: self.user_id@, ts: self.ts, action: self.action }
    }
}

/// The fields of one wire object: `t` (tag), `u` (user id), `ts`, and the
/// optional numbers `p` (position) and `s` (speed).
#[derive(Clone, Debug, PartialEq, Eq)]
pub struct Wire {
    pub t: String,
    pub u: String,
    pub ts: u64,
    pub p: Option<i64>,
    pub s: Option<i64>,
}

/// What a `Wire` holds.
pub struct WireModel {
    pub t: Seq<char>,
    pub u: Seq<char>,
    pub ts: u64,
    pub p: Option<i64>,
    pub s: Option<i64>,
}

impl View for Wire {
    type V = WireModel;

    open spec fn view(&self) -> WireModel {
        WireModel { t: self.t@, u: self.u@, ts: self.ts, p: self.p, s: self.s }
    }
}

/// Why a wire object is not a message.
#[derive(Clone, Debug, PartialEq, Eq)]
pub enum WireError {
    /// The tag is none of the six known ones.
    UnknownTag { tag: String },
}

/// The tag that stands for an action on the wire.
pub open spec fn tag_of(action: Action) -> Seq<char> {
    match action {
        Action::Hello => "h"@,
        Action::Ready => "r"@,
        Action::Unready => "!r"@,
        Action::Seek { .. } => ">>"@,
        Action::Position { .. } => "??"@,
        Action::Speed { .. } => ">>>"@,
    }
}

/// The action that a tag and the two optional numbers stand for, if the tag
/// is known. A number that is missing counts as zero.
pub open spec fn action_of(t: Seq<char>, p: Option<i64>, s: Option<i64>) -> Option<Action> {
    let pos: i64 = match p {
        Some(v) => v,
        None => 0i64,
    };
    let speed: i64 = match s {
        Some(v) => v,
        None => 0i64,
    };
    if t == "h"@ {
        Some(Action::Hello)
    } else if t == "r"@ {
        Some(Action::Ready)
    } else if t == "!r"@ {
        Some(Action::Unready)
    } else if t == ">>"@ {
        Some(Action::Seek { pos })
    } else if t == "??"@ {
        Some(Action::Position { pos })
    } else if t == ">>>"@ {
        Some(Action::Speed { speed })
    } else {
        None
    }
}

/// The position that an action carries on the wire, if it carries one.
pub open spec fn carried_position(action: Action) -> Option<i64> {
    match action {
        Action::Seek { pos } => Some(pos),
        Action::Position { pos } => Some(pos),
        _ => None,
    }
}

/// The speed that an action carries on the wire, if it carries one.
pub open spec fn carried_speed(action: Action) -> Option<i64> {
    match action {
        Action::Speed { speed } => Some(speed),
        _ => None,
    }
}

/// The wire fields of a message.
pub open spec fn wire_of(m: MessageModel) -> WireModel {
    WireModel {
        t: tag_of(m.action),
        u: m.user_id,
        ts: m.ts,
        p: carried_position(m.action),
        s: carried_speed(m.action),
    }
}

/// The message that wire fields stand for, or the tag that is not known.
pub open spec fn message_of(w: WireModel) -> Result<MessageModel, Seq<char>> {
    match action_of(w.t, w.p, w.s) {
        Some(action) => Ok(MessageModel { user_id: w.u, ts: w.ts, action }),
        None => Err(w.t),
    }
}

/// The six tags are pairwise different.
pub proof fn lemma_tags_differ()
    ensures
        "h"@ != "r"@,
        "h"@ != "!r"@,
        "h"@ != ">>"@,
        "h"@ != "??"@,
        "h"@ != ">>>"@,
        "r"@ != "!r"@,
        "r"@ != ">>"@,
        "r"@ != "??"@,
        "r"@ != ">>>"@,
        "!r"@ != ">>"@,
        "!r"@ != "??"@,
        "!r"@ != ">>>"@,
        ">>"@ != "??"@,
        ">>"@ != ">>>"@,
        "??"@ != ">>>"@,
{
    reveal_strlit("h");
    reveal_strlit("r");
    reveal_strlit("!r");
    reveal_strlit(">>");
    reveal_strlit("??");
    reveal_strlit(">>>");
    assert("h"@[0] == 'h');
    assert("r"@[0] == 'r');
    assert("!r"@[0] == '!');
    assert(">>"@[0] == '>');
    assert("??"@[0] == '?');
    assert(">>"@.len() == 2);
    assert(">>>"@.len() == 3);
}

impl Action {
    /// The wire tag of this action.
    pub fn tag(&self) -> (r: &'static str)
        ensures
            r@ == tag_of(*self),
    {
        match self {
            Action::Hello => "h",
            Action::Ready => "r",
            Action::Unready => "!r",
            Action::Seek { .. } => ">>",
            Action::Position { .. } => "??",
            Action::Speed { .. } => ">>>",
        }
    }
}

impl Message {
    /// The wire fields of this message: the tag of its action, the sender,
    /// the timestamp, `p` for an action that carries a position and `s` for
    /// one that carries a speed.
    pub fn to_wire(&self) -> (w: Wire)
        ensures
            w@ == wire_of(self@),
    {
        let p: Option<i64> = match self.action {
            Action::Seek { pos } => Some(pos),
            Action::Position { pos } => Some(pos),
            _ => None,
        };
        let s: Option<i64> = match self.action {
            Action::Speed { speed } => Some(speed),
            _ => None,
        };
        Wire { t: String::from_str(self.action.tag()), u: self.user_id.clone(), ts: self.ts, p, s }
    }

    /// Reads a message from wire fields. Succeeds exactly when the tag is
    /// known; the error then carries the offending tag.
    pub fn from_wire(w: &Wire) -> (r: Result<Message, WireError>)
        ensures
            match message_of(w@) {
                Ok(m) => r matches Ok(got) && got@ == m,
                Err(tag) => r matches Err(WireError::UnknownTag { tag: t }) && t@ == tag,
            },
    {
        let pos: i64 = match w.p {
            Some(v) => v,
            None => 0i64,
        };
        let speed: i64 = match w.s {
            Some(v) => v,
            None => 0i64,
        };
        let action: Action = if same_text(&w.t, "h") {
            Action::Hello
        } else if same_text(&w.t, "r") {
            Action::Ready
        } else if same_text(&w.t, "!r") {
            Action::Unready
        } else if same_text(&w.t, ">>") {
            Action::Seek { pos }
        } else if same_text(&w.t, "??") {
            Action::Position { pos }
        } else if same_text(&w.t, ">>>") {
            Action::Speed { speed }
        } else {
            return Err(WireError::UnknownTag { tag: w.t.clone() });
        };
        Ok(Message { user_id: w.u.clone(), ts: w.ts, action })
    }
}

/// Writing a message to wire fields and reading them back gives the
/// message back.
pub proof fn law_round_trip(m: MessageModel)
    ensures
        message_of(wire_of(m)) == Ok::<MessageModel, Seq<char>>(m),
{
    lemma_tags_differ();
}

} // verus!
