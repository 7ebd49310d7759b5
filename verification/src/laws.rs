//! What holds of the state machine across events, proved over the model
//! that every step of the executable machine follows.

use vstd::prelude::*;
use crate::model::{
    all_ready, clamped, desync_reason, distance, elapsed, farthest, known,
    lemma_change_keeps_names, lemma_retained, newest_target, young_at, LogLine,
    retained, unique_names, with_change, Clock, Emitted, Incoming, MessageModel, Model,
    PeerChange, PeerModel, State, LOG_DISPLAY_MS, MAX_DESYNC_MS, SEEK_IGNORE_THRES_MS,
    SKIP_DESYNC_AFTER_SEEK_MS,
};
use crate::mpv::{EventModel, FloatProperty, Property, RequestModel, RequestType, ValueModel};
use crate::proto::Action;
use crate::text::decimal_text;

verus! {

/// The network counts as ready exactly when at least one peer is known and
/// every known peer is ready.
pub open spec fn readiness_agrees(m: Model) -> bool {
    m.network_ready == all_ready(m.peers)
}

/// The flag of a request that pauses or resumes the player.
pub open spec fn pause_flag(o: Emitted) -> Option<bool> {
    match o {
        Emitted::Player(r) => if r.command == RequestType::SetProperty && r.v1 == ValueModel::Name(
            Property::Pause,
        ) {
            match r.v2 {
                ValueModel::Bool(b) => Some(b),
                _ => None,
            }
        } else {
            None
        },
        Emitted::Network(_) => None,
    }
}

/// The flag of the last request in `out` that pauses or resumes the player.
pub open spec fn last_pause_command(out: Seq<Emitted>) -> Option<bool>
    decreases out.len(),
{
    if out.len() == 0 {
        None
    } else {
        match pause_flag(out.last()) {
            Some(b) => Some(b),
            None => last_pause_command(out.drop_last()),
        }
    }
}

/// The player is held: it reported a pause, or the last pause request
/// among what was sent asks it to pause.
pub open spec fn held(m: Model) -> bool {
    m.local.paused || last_pause_command(m.outbox) == Some(true)
}

/// While the network is not ready the player is held.
pub open spec fn held_unless_ready(m: Model) -> bool {
    !m.network_ready ==> held(m)
}

/// When the local participant and the network are both ready, the player
/// is not paused.
pub open spec fn plays_when_ready(m: Model) -> bool {
    m.local.ready && m.network_ready ==> !m.local.paused
}

/// A first message from an unknown sender that carries no readiness, while
/// the network counts as ready: the sender is added as not ready and the
/// network's readiness is not looked at again.
pub open spec fn silent_newcomer(m: Model, e: Incoming) -> bool {
    match e {
        Incoming::Network(msg) => m.network_ready && !known(m.peers, msg.user_id) && (
        msg.action is Seek || msg.action is Position || msg.action is Speed),
        _ => false,
    }
}

/// `later` holds everything of `earlier`, in order, and after it no request
/// that resumes the player.
pub open spec fn extends_without_resume(earlier: Seq<Emitted>, later: Seq<Emitted>) -> bool {
    &&& earlier.len() <= later.len()
    &&& forall|i: int| 0 <= i < earlier.len() ==> later[i] == earlier[i]
    &&& forall|i: int|
        earlier.len() <= i < later.len() ==> pause_flag(#[trigger] later[i]) != Some(false)
}

/// The actions among what was sent, in order.
pub open spec fn announced(out: Seq<Emitted>) -> Seq<Action>
    decreases out.len(),
{
    if out.len() == 0 {
        Seq::<Action>::empty()
    } else {
        match out.last() {
            Emitted::Network(a) => announced(out.drop_last()).push(a),
            Emitted::Player(_) => announced(out.drop_last()),
        }
    }
}

/// Whether something sent is a request that replaces the overlay.
pub open spec fn is_overlay(o: Emitted) -> bool {
    o matches Emitted::Player(r) && r.command == RequestType::OsdOverlay
}

/// `later` holds everything of `earlier`, in order, and after it no request
/// to the player but overlays.
pub open spec fn extends_with_overlays(earlier: Seq<Emitted>, later: Seq<Emitted>) -> bool {
    &&& earlier.len() <= later.len()
    &&& forall|i: int| 0 <= i < earlier.len() ==> later[i] == earlier[i]
    &&& forall|i: int|
        earlier.len() <= i < later.len() ==> (#[trigger] later[i]) is Network || is_overlay(
            later[i],
        )
}

/// `n` times ready and not ready in turn, beginning with ready if
/// `first_ready`.
pub open spec fn toggles(first_ready: bool, n: nat) -> Seq<Action> {
    Seq::new(
        n,
        |i: int|
            if (i % 2 == 0) == first_ready {
                Action::Ready
            } else {
                Action::Unready
            },
    )
}

/// A peer's `Ready` that finds the network ready, leaves it not ready
/// because some known peer is not, and meets a player that is not held.
pub open spec fn ready_reveals_unready(m: Model, e: Incoming, now: Clock) -> bool {
    e matches Incoming::Network(msg) && msg.action is Ready && m.network_ready && !m.step(
        e,
        now,
    ).network_ready && !held(m)
}

/// The machine after the ready key was pressed once at each of the given
/// times.
pub open spec fn after_presses(m: Model, times: Seq<Clock>) -> Model
    decreases times.len(),
{
    if times.len() == 0 {
        m
    } else {
        after_presses(m, times.drop_last()).step(
            Incoming::Mpv(EventModel::ClientMessage { id: "ready_pressed"@ }),
            times.last(),
        )
    }
}

proof fn lemma_pause_push(out: Seq<Emitted>, o: Emitted)
    ensures
        last_pause_command(out.push(o)) == match pause_flag(o) {
            Some(b) => Some(b),
            None => last_pause_command(out),
        },
{
    assert(out.push(o).drop_last() =~= out);
    assert(out.push(o).last() == o);
}

proof fn lemma_announced_push(out: Seq<Emitted>, o: Emitted)
    ensures
        announced(out.push(o)) == match o {
            Emitted::Network(a) => announced(out).push(a),
            Emitted::Player(_) => announced(out),
        },
{
    assert(out.push(o).drop_last() =~= out);
    assert(out.push(o).last() == o);
}

/// A line written now is kept by the refresh that follows, behind the
/// lines that are kept of the log before it.
proof fn lemma_retained_push(log: Seq<LogLine>, now: Clock, what: Seq<char>)
    ensures
        retained(log.push(LogLine { when: now.monotonic_ms, what }), now.monotonic_ms)
            == retained(log, now.monotonic_ms).push(LogLine { when: now.monotonic_ms, what }),
{
    reveal(Seq::filter);
    let l = LogLine { when: now.monotonic_ms, what };
    assert(log.push(l).drop_last() =~= log);
    assert(log.push(l).last() == l);
    assert(young_at(now.monotonic_ms)(l));
}

/// Refreshing the overlay queues one overlay request, which shows the
/// status text unless the log is empty, drops the old log lines, and
/// changes nothing else.
pub proof fn law_osd_shown(m: Model, now: Clock)
    ensures
        ({
            let n = m.osd_shown(now);
            &&& n.peers == m.peers
            &&& n.local == m.local
            &&& n.network_ready == m.network_ready
            &&& n.seek_target == m.seek_target
            &&& n.pending_seek == m.pending_seek
            &&& n.last_seek_event == m.last_seek_event
            &&& n.log == retained(m.log, now.monotonic_ms)
            &&& n.outbox.len() == m.outbox.len() + 1
            &&& n.outbox.drop_last() == m.outbox
            &&& pause_flag(n.outbox.last()) is None
            &&& last_pause_command(n.outbox) == last_pause_command(m.outbox)
            &&& extends_without_resume(m.outbox, n.outbox)
            &&& extends_with_overlays(m.outbox, n.outbox)
            &&& is_overlay(n.outbox.last())
            &&& announced(n.outbox) == announced(m.outbox)
            &&& n.log.len() > 0 ==> n.outbox.last() == Emitted::Player(
                RequestModel::osd_overlay(n.osd_text()),
            )
        }),
{
    let n = m.osd_shown(now);
    let o = n.outbox.last();
    assert(n.outbox == m.outbox.push(o));
    assert(m.outbox.push(o).drop_last() =~= m.outbox);
    lemma_pause_push(m.outbox, o);
    lemma_announced_push(m.outbox, o);
}

/// Turning ready sets the local readiness, queues one overlay and then the
/// announcement, writes one log line, and changes nothing else: whether the
/// player is paused, the network's readiness, the peers, the seek on record
/// and the pending flag stay as they are.
pub proof fn law_became_ready(m: Model, now: Clock)
    ensures
        ({
            let n = m.became_ready(now);
            let k = m.outbox.len() as int;
            &&& n.peers == m.peers
            &&& n.local == State { ready: true, ..m.local }
            &&& n.network_ready == m.network_ready
            &&& n.seek_target == m.seek_target
            &&& n.pending_seek == m.pending_seek
            &&& n.last_seek_event == m.last_seek_event
            &&& n.log == retained(m.log, now.monotonic_ms).push(
                LogLine { when: now.monotonic_ms, what: "you are ready"@ },
            )
            &&& last_pause_command(n.outbox) == last_pause_command(m.outbox)
            &&& extends_without_resume(m.outbox, n.outbox)
            &&& extends_with_overlays(m.outbox, n.outbox)
            &&& announced(n.outbox) == announced(m.outbox).push(Action::Ready)
            &&& n.outbox.len() == k + 2
            &&& n.outbox[k] == Emitted::Player(RequestModel::osd_overlay(n.osd_text()))
            &&& n.outbox[k + 1] == Emitted::Network(Action::Ready)
        }),
{
    let a = Model { local: State { ready: true, ..m.local }, ..m }.logged(now, "you are ready"@);
    lemma_retained_push(m.log, now, "you are ready"@);
    law_osd_shown(a, now);
    let b = a.osd_shown(now);
    assert(b.outbox.drop_last() == m.outbox);
    lemma_pause_push(b.outbox, Emitted::Network(Action::Ready));
    lemma_announced_push(b.outbox, Emitted::Network(Action::Ready));
}

/// Turning not ready clears the local readiness, queues the announcement
/// and then one overlay, writes one log line, and changes nothing else.
pub proof fn law_became_unready(m: Model, now: Clock, reason: Seq<char>)
    ensures
        ({
            let n = m.became_unready(now, reason);
            let k = m.outbox.len() as int;
            &&& n.peers == m.peers
            &&& n.local == State { ready: false, ..m.local }
            &&& n.network_ready == m.network_ready
            &&& n.seek_target == m.seek_target
            &&& n.pending_seek == m.pending_seek
            &&& n.last_seek_event == m.last_seek_event
            &&& n.log == retained(m.log, now.monotonic_ms).push(
                LogLine { when: now.monotonic_ms, what: "you not ready: "@ + reason },
            )
            &&& last_pause_command(n.outbox) == last_pause_command(m.outbox)
            &&& extends_without_resume(m.outbox, n.outbox)
            &&& extends_with_overlays(m.outbox, n.outbox)
            &&& announced(n.outbox) == announced(m.outbox).push(Action::Unready)
            &&& n.outbox.len() == k + 2
            &&& n.outbox[k] == Emitted::Network(Action::Unready)
            &&& n.outbox[k + 1] == Emitted::Player(RequestModel::osd_overlay(n.osd_text()))
        }),
{
    let a = Model { local: State { ready: false, ..m.local }, ..m }.to_network(Action::Unready);
    lemma_pause_push(m.outbox, Emitted::Network(Action::Unready));
    lemma_announced_push(m.outbox, Emitted::Network(Action::Unready));
    let b = a.logged(now, "you not ready: "@ + reason);
    lemma_retained_push(m.log, now, "you not ready: "@ + reason);
    law_osd_shown(b, now);
    assert(b.osd_shown(now).outbox.drop_last() == a.outbox);
}

/// Starting playback on a running player changes nothing and sends
/// nothing. On a paused player it drops the seek on record, takes the
/// player to run, and queues the request to resume and then one overlay
/// that shows the line written for it; nothing is announced, and the
/// readiness flags and the peers stay as they are.
pub proof fn law_playback_started(m: Model, now: Clock)
    ensures
        ({
            let n = m.playback_started(now);
            let k = m.outbox.len() as int;
            &&& n.peers == m.peers
            &&& n.local == State { paused: false, ..m.local }
            &&& n.network_ready == m.network_ready
            &&& n.pending_seek == m.pending_seek
            &&& n.last_seek_event == m.last_seek_event
            &&& announced(n.outbox) == announced(m.outbox)
            &&& !m.local.paused ==> n == m
            &&& m.local.paused ==> {
                &&& n.seek_target is None
                &&& last_pause_command(n.outbox) == Some(false)
                &&& n.log == retained(m.log, now.monotonic_ms).push(
                    LogLine { when: now.monotonic_ms, what: "everyone is ready, go"@ },
                )
                &&& n.outbox.len() == k + 2
                &&& forall|i: int| 0 <= i < k ==> n.outbox[i] == m.outbox[i]
                &&& n.outbox[k] == Emitted::Player(RequestModel::set_pause(false))
                &&& n.outbox[k + 1] == Emitted::Player(RequestModel::osd_overlay(n.osd_text()))
            }
        }),
{
    if m.local.paused {
        let a = Model { local: State { paused: false, ..m.local }, seek_target: None, ..m };
        lemma_pause_push(a.outbox, Emitted::Player(RequestModel::set_pause(false)));
        lemma_announced_push(a.outbox, Emitted::Player(RequestModel::set_pause(false)));
        let b = a.to_player(RequestModel::set_pause(false)).logged(now, "everyone is ready, go"@);
        lemma_retained_push(m.log, now, "everyone is ready, go"@);
        law_osd_shown(b, now);
        assert(b.osd_shown(now).outbox.drop_last() == b.outbox);
    }
}

/// Stopping playback leaves the player paused and the local participant
/// not ready. The request to pause is queued, first, exactly when the player
/// was running, and then the seek on record is dropped; not being ready is
/// announced exactly when the participant was ready; no other pause request
/// is queued; the last thing queued is an overlay that shows the line
/// written for the stop.
pub proof fn law_playback_stopped(m: Model, now: Clock, reason: Seq<char>)
    ensures
        ({
            let n = m.playback_stopped(now, reason);
            let k = m.outbox.len() as int;
            &&& n.peers == m.peers
            &&& n.local == State { paused: true, ready: false, ..m.local }
            &&& n.network_ready == m.network_ready
            &&& n.pending_seek == m.pending_seek
            &&& n.last_seek_event == m.last_seek_event
            &&& n.seek_target == if m.local.paused {
                m.seek_target
            } else {
                None
            }
            &&& extends_without_resume(m.outbox, n.outbox)
            &&& announced(n.outbox) == if m.local.ready {
                announced(m.outbox).push(Action::Unready)
            } else {
                announced(m.outbox)
            }
            &&& n.outbox.len() == k + (if m.local.paused { 0int } else { 1 }) + (if m.local.ready {
                2int
            } else {
                0
            }) + 1
            &&& forall|i: int| 0 <= i < k ==> n.outbox[i] == m.outbox[i]
            &&& !m.local.paused ==> n.outbox[k] == Emitted::Player(RequestModel::set_pause(true))
                && last_pause_command(n.outbox) == Some(true)
            &&& forall|i: int|
                k + (if m.local.paused { 0int } else { 1 }) <= i < n.outbox.len() ==> pause_flag(
                    #[trigger] n.outbox[i],
                ) is None
            &&& m.local.paused ==> last_pause_command(n.outbox) == last_pause_command(m.outbox)
            &&& n.log.len() > 0 && n.log.last() == (LogLine {
                when: now.monotonic_ms,
                what: "stopped playback: "@ + reason,
            })
            &&& n.outbox.last() == Emitted::Player(RequestModel::osd_overlay(n.osd_text()))
        }),
{
    let a = if !m.local.paused {
        Model { local: State { paused: true, ..m.local }, seek_target: None, ..m }.to_player(
            RequestModel::set_pause(true),
        )
    } else {
        m
    };
    lemma_pause_push(m.outbox, Emitted::Player(RequestModel::set_pause(true)));
    lemma_announced_push(m.outbox, Emitted::Player(RequestModel::set_pause(true)));
    let b = if a.local.ready {
        a.became_unready(now, reason)
    } else {
        a
    };
    law_became_unready(a, now, reason);
    let c = b.logged(now, "stopped playback: "@ + reason);
    lemma_retained_push(b.log, now, "stopped playback: "@ + reason);
    law_osd_shown(c, now);
    let n = c.osd_shown(now);
    assert(n.outbox.drop_last() == b.outbox);
    assert forall|i: int| 0 <= i < m.outbox.len() implies n.outbox[i] == m.outbox[i] by {
        assert(n.outbox[i] == n.outbox.drop_last()[i]);
    }
    assert forall|i: int|
        m.outbox.len() + (if m.local.paused { 0int } else { 1 }) <= i < n.outbox.len() implies pause_flag(
        #[trigger] n.outbox[i],
    ) is None by {
        if i < n.outbox.len() - 1 {
            assert(n.outbox[i] == b.outbox[i]);
        }
    }
}

/// Answering a forbidden resume queues the request to pause, and the local
/// participant turns not ready.
pub proof fn law_unpause_suppressed(m: Model, now: Clock, reason: Seq<char>)
    ensures
        ({
            let n = m.unpause_suppressed(now, reason);
            &&& n.peers == m.peers
            &&& n.seek_target == m.seek_target
            &&& n.local == State { ready: false, ..m.local }
            &&& n.network_ready == m.network_ready
            &&& n.pending_seek == m.pending_seek
            &&& n.last_seek_event == m.last_seek_event
            &&& last_pause_command(n.outbox) == Some(true)
            &&& extends_without_resume(m.outbox, n.outbox)
        }),
{
    let a = m.to_player(RequestModel::set_pause(true));
    lemma_pause_push(m.outbox, Emitted::Player(RequestModel::set_pause(true)));
    law_became_unready(a, now, reason);
}

/// Greeting a peer writes a log line and refreshes the overlay, and changes
/// nothing else.
pub proof fn law_other_joined(m: Model, now: Clock, name: Seq<char>)
    ensures
        ({
            let n = m.other_joined(now, name);
            &&& n.peers == m.peers
            &&& n.local == m.local
            &&& n.network_ready == m.network_ready
            &&& n.seek_target == m.seek_target
            &&& n.pending_seek == m.pending_seek
            &&& n.last_seek_event == m.last_seek_event
            &&& last_pause_command(n.outbox) == last_pause_command(m.outbox)
            &&& extends_without_resume(m.outbox, n.outbox)
        }),
{
    law_osd_shown(m.logged(now, "oh hi "@ + name), now);
}

proof fn lemma_met(m: Model, now: Clock, from: Seq<char>)
    ensures
        ({
            let n = m.met(now, from);
            &&& known(n.peers, from)
            &&& known(m.peers, from) ==> n == m
            &&& !known(m.peers, from) ==> n.peers == m.peers.push(
                PeerModel { name: from, state: State::initial() },
            )
            &&& n.local == m.local
            &&& n.network_ready == m.network_ready
            &&& n.seek_target == m.seek_target
            &&& n.pending_seek == m.pending_seek
            &&& n.last_seek_event == m.last_seek_event
            &&& last_pause_command(n.outbox) == last_pause_command(m.outbox)
            &&& extends_without_resume(m.outbox, n.outbox)
            &&& unique_names(m.peers) ==> unique_names(n.peers)
            &&& readiness_agrees(m) && !m.network_ready ==> readiness_agrees(n)
        }),
{
    if !known(m.peers, from) {
        let fresh = PeerModel { name: from, state: State::initial() };
        let a = Model { peers: m.peers.push(fresh), ..m };
        law_other_joined(a, now, from);
        assert(a.peers[m.peers.len() as int].name == from);
        assert(!a.peers[m.peers.len() as int].state.ready);
        if unique_names(m.peers) {
            assert forall|i: int, j: int| 0 <= i < j < a.peers.len() implies (
            #[trigger] a.peers[i]).name != (#[trigger] a.peers[j]).name by {
                if j < m.peers.len() {
                    assert(m.peers[i].name != m.peers[j].name);
                } else {
                    assert(m.peers[i].name != from);
                }
            }
        }
    }
}

proof fn lemma_unready_change(peers: Seq<PeerModel>, from: Seq<char>)
    requires
        known(peers, from),
    ensures
        !all_ready(with_change(peers, from, PeerChange::Ready(false))),
{
    let i = choose|i: int| 0 <= i < peers.len() && (#[trigger] peers[i]).name == from;
    assert(!with_change(peers, from, PeerChange::Ready(false))[i].state.ready);
}

proof fn lemma_ready_change_keeps(peers: Seq<PeerModel>, from: Seq<char>)
    requires
        all_ready(peers),
    ensures
        all_ready(with_change(peers, from, PeerChange::Ready(true))),
{
    let after = with_change(peers, from, PeerChange::Ready(true));
    assert forall|i: int| 0 <= i < after.len() implies (#[trigger] after[i]).state.ready by {
        assert(peers[i].state.ready);
    }
}

proof fn lemma_other_change(peers: Seq<PeerModel>, from: Seq<char>, c: PeerChange)
    requires
        !(c is Ready),
    ensures
        all_ready(with_change(peers, from, c)) == all_ready(peers),
{
    let after = with_change(peers, from, c);
    if all_ready(peers) {
        assert forall|i: int| 0 <= i < after.len() implies (#[trigger] after[i]).state.ready by {
            assert(peers[i].state.ready);
        }
    }
    if all_ready(after) {
        assert forall|i: int| 0 <= i < peers.len() implies (#[trigger] peers[i]).state.ready by {
            assert(after[i].state.ready);
        }
    }
}

/// At start the network is not ready, no peer is known, and the player is
/// held.
pub proof fn law_initial(now: Clock)
    ensures
        readiness_agrees(Model::initial(now)),
        held_unless_ready(Model::initial(now)),
        unique_names(Model::initial(now).peers),
{
}

/// No event makes two peers share a name.
pub proof fn law_names_stay_unique(m: Model, e: Incoming, now: Clock)
    requires
        unique_names(m.peers),
    ensures
        unique_names(m.step(e, now).peers),
{
    match e {
        Incoming::KeepAlive => {
            lemma_heartbeat(m, now);
        },
        Incoming::Mpv(ev) => {
            lemma_player_event(m, ev, now);
        },
        Incoming::Network(msg) => {
            lemma_network_event(m, msg, now);
        },
    }
}

proof fn lemma_heartbeat(m: Model, now: Clock)
    ensures
        ({
            let n = m.heartbeat(now);
            &&& n.peers == m.peers
            &&& n.network_ready == m.network_ready
            &&& n.pending_seek == m.pending_seek
            &&& held(m) ==> held(n)
            &&& (n.local.paused != m.local.paused) ==> n.local.paused
            &&& plays_when_ready(m) ==> plays_when_ready(n)
        }),
{
    let a = m.to_network(Action::Position { pos: m.local.position });
    lemma_pause_push(m.outbox, Emitted::Network(Action::Position { pos: m.local.position }));
    let stop = a.desync_checked(now) && a.peers.len() > 0 && a.desync() > MAX_DESYNC_MS;
    if stop {
        let reason = desync_reason(
            a.peers[farthest(a.peers, a.local.position)].name,
            a.desync(),
        );
        law_playback_stopped(a, now, reason);
        law_osd_shown(a.playback_stopped(now, reason), now);
    } else {
        law_osd_shown(a, now);
    }
}

proof fn lemma_player_event(m: Model, ev: EventModel, now: Clock)
    ensures
        ({
            let n = m.player_event(ev, now);
            &&& n.peers == m.peers
            &&& n.network_ready == m.network_ready
            &&& held_unless_ready(m) ==> held_unless_ready(n)
            &&& plays_when_ready(m) ==> plays_when_ready(n)
            &&& m.pending_seek && !n.pending_seek ==> ev is FloatPropertyChange
                && ev->FloatPropertyChange_property == FloatProperty::TimePos
        }),
{
    match ev {
        EventModel::FloatPropertyChange { property: FloatProperty::TimePos, value } => {
            let a = Model { local: State { position: value, ..m.local }, ..m };
            let pos: i64 = if value >= 0 {
                value
            } else {
                0i64
            };
            lemma_pause_push(a.outbox, Emitted::Network(Action::Seek { pos }));
        },
        EventModel::FloatPropertyChange { property: FloatProperty::Speed, value } => {
            lemma_pause_push(m.outbox, Emitted::Network(Action::Speed { speed: value }));
        },
        EventModel::ClientMessage { id } => {
            if id == "ready_pressed"@ {
                if m.local.ready {
                    law_became_unready(m, now, "local unready"@);
                } else {
                    law_became_ready(m, now);
                    law_playback_started(m.became_ready(now), now);
                }
            }
        },
        EventModel::Event { event } => {
            if event == "pause"@ {
                let a = Model {
                    local: State { paused: true, ..m.local },
                    seek_target: None,
                    ..m
                };
                law_became_unready(a, now, "local pause"@);
            } else if event == "unpause"@ {
                let a = Model {
                    local: State { paused: false, ..m.local },
                    seek_target: None,
                    ..m
                };
                law_unpause_suppressed(a, now, "not ready"@);
                let b = if !a.local.ready {
                    a.unpause_suppressed(now, "not ready"@)
                } else {
                    a
                };
                law_unpause_suppressed(b, now, "network is not ready"@);
            }
        },
        _ => {},
    }
}

proof fn lemma_network_event(m: Model, msg: MessageModel, now: Clock)
    ensures
        ({
            let n = m.network_event(msg, now);
            &&& n.pending_seek == m.pending_seek
            &&& unique_names(m.peers) ==> unique_names(n.peers)
            &&& readiness_agrees(m) && !silent_newcomer(m, Incoming::Network(msg))
                ==> readiness_agrees(n)
            &&& readiness_agrees(m) && m.network_ready && msg.action is Ready ==> n.network_ready
            &&& held_unless_ready(m) && !(msg.action is Ready && m.network_ready
                && !n.network_ready && !held(m)) ==> held_unless_ready(n)
            &&& msg.action is Ready && !n.network_ready ==> held(n) == held(m)
            &&& plays_when_ready(m) ==> plays_when_ready(n)
        }),
{
    let from = msg.user_id;
    let a = m.met(now, from);
    lemma_met(m, now, from);
    match msg.action {
        Action::Hello => {
            let c = PeerChange::Ready(false);
            lemma_change_keeps_names(a.peers, from, c);
            lemma_unready_change(a.peers, from);
            let b = Model { network_ready: false, ..a.peer_changed(from, c) };
            law_other_joined(b, now, from);
            law_playback_stopped(b.other_joined(now, from), now, from + " joined"@);
        },
        Action::Ready => {
            let c = PeerChange::Ready(true);
            lemma_change_keeps_names(a.peers, from, c);
            let b = a.peer_changed(from, c);
            let b2 = Model { network_ready: all_ready(b.peers), ..b };
            if readiness_agrees(m) && m.network_ready {
                if known(m.peers, from) {
                    lemma_ready_change_keeps(a.peers, from);
                } else {
                    lemma_ready_after_join(m.peers, from);
                }
            }
            law_playback_started(b2, now);
            let b3 = if b2.local.ready && b2.network_ready {
                b2.playback_started(now)
            } else {
                b2
            };
            law_osd_shown(b3.logged(now, from + " is ready"@), now);
        },
        Action::Unready => {
            let c = PeerChange::Ready(false);
            lemma_change_keeps_names(a.peers, from, c);
            lemma_unready_change(a.peers, from);
            let b = Model { network_ready: false, ..a.peer_changed(from, c) };
            law_playback_stopped(b, now, from + " is not ready"@);
            let b2 = if !b.local.paused {
                b.playback_stopped(now, from + " is not ready"@)
            } else {
                b
            };
            law_osd_shown(b2.logged(now, from + " is not ready"@), now);
        },
        Action::Seek { pos } => {
            let c = PeerChange::Position(pos);
            lemma_change_keeps_names(a.peers, from, c);
            lemma_other_change(a.peers, from, c);
            let b = Model { last_seek_event: now.monotonic_ms, ..a }.peer_changed(from, c);
            let b2 = Model { seek_target: Some(newest_target(b.seek_target, msg.ts, pos)), ..b };
            if b2.off_target(now) {
                lemma_pause_push(
                    b2.outbox,
                    Emitted::Player(RequestModel::seek(b2.calculated_pos(now).unwrap())),
                );
            }
        },
        Action::Position { pos } => {
            let c = PeerChange::Position(pos);
            lemma_change_keeps_names(a.peers, from, c);
            lemma_other_change(a.peers, from, c);
        },
        Action::Speed { speed } => {
            let c = PeerChange::Speed(speed);
            lemma_change_keeps_names(a.peers, from, c);
            lemma_other_change(a.peers, from, c);
            let b = a.peer_changed(from, c);
            lemma_pause_push(b.outbox, Emitted::Player(RequestModel::speed(speed)));
            law_osd_shown(
                b.to_player(RequestModel::speed(speed)).logged(
                    now,
                    from + " changed speed to "@ + decimal_text(speed as int),
                ),
                now,
            );
        },
    }
}

proof fn lemma_ready_after_join(peers: Seq<PeerModel>, from: Seq<char>)
    requires
        all_ready(peers),
    ensures
        all_ready(
            with_change(
                peers.push(PeerModel { name: from, state: State::initial() }),
                from,
                PeerChange::Ready(true),
            ),
        ),
{
    let grown = peers.push(PeerModel { name: from, state: State::initial() });
    let after = with_change(grown, from, PeerChange::Ready(true));
    assert forall|i: int| 0 <= i < after.len() implies (#[trigger] after[i]).state.ready by {
        if i < peers.len() {
            assert(peers[i].state.ready);
        }
    }
}

/// The network counts as ready exactly when a peer is known and all known
/// peers are ready: an event keeps this true, unless it is the first
/// message of an unknown sender, carries no readiness, and arrives while
/// the network counts as ready.
pub proof fn law_network_ready(m: Model, e: Incoming, now: Clock)
    requires
        readiness_agrees(m),
        !silent_newcomer(m, e),
    ensures
        readiness_agrees(m.step(e, now)),
{
    match e {
        Incoming::KeepAlive => {
            lemma_heartbeat(m, now);
        },
        Incoming::Mpv(ev) => {
            lemma_player_event(m, ev, now);
        },
        Incoming::Network(msg) => {
            lemma_network_event(m, msg, now);
        },
    }
}

/// While the network is not ready the player is held: it reported a pause,
/// or the last pause request sent asks it to pause. In particular this
/// holds whenever the local participant is ready and the network is not. The
/// outbox is read as the record of all that was sent. Every event keeps
/// this true but one: a peer's `Ready` that finds the network ready and the
/// player running, and leaves the network not ready.
pub proof fn law_held_unless_ready(m: Model, e: Incoming, now: Clock)
    requires
        held_unless_ready(m),
        !ready_reveals_unready(m, e, now),
    ensures
        held_unless_ready(m.step(e, now)),
        m.step(e, now).local.ready && !m.step(e, now).network_ready ==> held(m.step(e, now)),
{
    match e {
        Incoming::KeepAlive => {
            lemma_heartbeat(m, now);
        },
        Incoming::Mpv(ev) => {
            lemma_player_event(m, ev, now);
        },
        Incoming::Network(msg) => {
            lemma_network_event(m, msg, now);
        },
    }
}

/// The one event left out above does leave the player running while the
/// network is not ready.
pub proof fn law_ready_reveals_unready(m: Model, e: Incoming, now: Clock)
    requires
        ready_reveals_unready(m, e, now),
    ensures
        !held_unless_ready(m.step(e, now)),
{
    match e {
        Incoming::Network(msg) => {
            lemma_network_event(m, msg, now);
        },
        _ => {},
    }
}

/// Where the network's readiness agrees with the peers, no `Ready` leaves
/// the network not ready that found it ready.
pub proof fn law_agreement_excludes_reveal(m: Model, e: Incoming, now: Clock)
    requires
        readiness_agrees(m),
    ensures
        !ready_reveals_unready(m, e, now),
{
    match e {
        Incoming::Network(msg) => {
            lemma_network_event(m, msg, now);
        },
        _ => {},
    }
}

/// When the local participant and the network are both ready, the player
/// is not paused: this holds at start, and every event keeps it true.
pub proof fn law_ready_means_playing(m: Model, e: Incoming, now: Clock)
    requires
        plays_when_ready(m),
    ensures
        plays_when_ready(m.step(e, now)),
        plays_when_ready(Model::initial(now)),
{
    match e {
        Incoming::KeepAlive => {
            lemma_heartbeat(m, now);
        },
        Incoming::Mpv(ev) => {
            lemma_player_event(m, ev, now);
        },
        Incoming::Network(msg) => {
            lemma_network_event(m, msg, now);
        },
    }
}

/// The flag that announces the next position as a seek is cleared by one
/// event only, a position report of the player, and that event publishes
/// one seek to a position that is not negative.
pub proof fn law_pending_seek_announced(m: Model, e: Incoming, now: Clock)
    requires
        m.pending_seek,
        !m.step(e, now).pending_seek,
    ensures
        e matches Incoming::Mpv(
            EventModel::FloatPropertyChange { property: FloatProperty::TimePos, value },
        ) && m.step(e, now).outbox == m.outbox.push(
            Emitted::Network(Action::Seek { pos: if value >= 0 { value } else { 0i64 } }),
        ),
{
    match e {
        Incoming::KeepAlive => {
            lemma_heartbeat(m, now);
        },
        Incoming::Mpv(ev) => {
            lemma_player_event(m, ev, now);
        },
        Incoming::Network(msg) => {
            lemma_network_event(m, msg, now);
        },
    }
}

/// After the overlay is refreshed the log is no longer than before and
/// holds only lines younger than the display time.
pub proof fn law_log_after_refresh(m: Model, now: Clock)
    ensures
        m.osd_shown(now).log.len() <= m.log.len(),
        forall|i: int|
            0 <= i < m.osd_shown(now).log.len() ==> elapsed(
                now.monotonic_ms,
                (#[trigger] m.osd_shown(now).log[i]).when,
            ) < LOG_DISPLAY_MS,
{
    lemma_retained(m.log, now.monotonic_ms);
    law_osd_shown(m, now);
}

proof fn lemma_extends_chain(a: Seq<Emitted>, b: Seq<Emitted>, c: Seq<Emitted>)
    requires
        extends_without_resume(a, b),
        extends_without_resume(b, c),
    ensures
        extends_without_resume(a, c),
{
    assert forall|i: int| a.len() <= i < c.len() implies pause_flag(#[trigger] c[i]) != Some(
        false,
    ) by {
        if i < b.len() {
            assert(c[i] == b[i]);
            assert(pause_flag(b[i]) != Some(false));
        }
    }
}

proof fn lemma_overlays_chain(a: Seq<Emitted>, b: Seq<Emitted>, c: Seq<Emitted>)
    requires
        extends_with_overlays(a, b),
        extends_with_overlays(b, c),
    ensures
        extends_with_overlays(a, c),
{
    assert forall|i: int| a.len() <= i < c.len() implies (#[trigger] c[i]) is Network
        || is_overlay(c[i]) by {
        if i < b.len() {
            assert(c[i] == b[i]);
            assert(b[i] is Network || is_overlay(b[i]));
        }
    }
}

/// With no peer known the network is never ready, and however often the
/// ready key is pressed: each press announces one action, ready and not
/// ready in turn; the player is sent overlays only, so no request to
/// resume; and its pause state stays as it is.
pub proof fn law_solo_presses(m: Model, times: Seq<Clock>)
    requires
        m.peers.len() == 0,
        readiness_agrees(m),
    ensures
        !m.network_ready,
        !after_presses(m, times).network_ready,
        after_presses(m, times).peers == m.peers,
        after_presses(m, times).local.paused == m.local.paused,
        after_presses(m, times).local.ready == (m.local.ready != (times.len() % 2 == 1)),
        extends_without_resume(m.outbox, after_presses(m, times).outbox),
        extends_with_overlays(m.outbox, after_presses(m, times).outbox),
        announced(after_presses(m, times).outbox) == announced(m.outbox) + toggles(
            !m.local.ready,
            times.len(),
        ),
    decreases times.len(),
{
    if times.len() > 0 {
        law_solo_presses(m, times.drop_last());
        let a = after_presses(m, times.drop_last());
        let n = after_presses(m, times);
        let now = times.last();
        let k = times.len() - 1;
        if a.local.ready {
            law_became_unready(a, now, "local unready"@);
        } else {
            law_became_ready(a, now);
        }
        lemma_extends_chain(m.outbox, a.outbox, n.outbox);
        lemma_overlays_chain(m.outbox, a.outbox, n.outbox);
        let last = if a.local.ready {
            Action::Unready
        } else {
            Action::Ready
        };
        assert(toggles(!m.local.ready, times.len()) =~= toggles(!m.local.ready, k as nat).push(
            last,
        ));
        assert(announced(n.outbox) =~= announced(m.outbox) + toggles(
            !m.local.ready,
            times.len(),
        ));
    } else {
        assert(announced(m.outbox) + toggles(!m.local.ready, 0) =~= announced(m.outbox));
    }
}

/// A position report from a known peer changes what is known of that
/// peer's position and nothing else: no request, no announcement, no log
/// line.
pub proof fn law_remote_position(m: Model, from: Seq<char>, ts: u64, pos: i64, now: Clock)
    requires
        known(m.peers, from),
    ensures
        m.step(
            Incoming::Network(
                MessageModel { user_id: from, ts, action: Action::Position { pos } },
            ),
            now,
        ) == (Model { peers: with_change(m.peers, from, PeerChange::Position(pos)), ..m }),
        with_change(m.peers, from, PeerChange::Position(pos)).len() == m.peers.len(),
        forall|i: int|
            0 <= i < m.peers.len() ==> (#[trigger] with_change(
                m.peers,
                from,
                PeerChange::Position(pos),
            )[i]).state == if m.peers[i].name == from {
                State { position: pos, ..m.peers[i].state }
            } else {
                m.peers[i].state
            },
{
}

/// A remote seek whose position, moved on by the time since it was sent,
/// is within the seek threshold of the local position sends nothing to the
/// player beyond the greeting of a sender not heard before: the seek is
/// recorded and not applied.
pub proof fn law_close_seek_not_applied(
    m: Model,
    from: Seq<char>,
    ts: u64,
    pos: i64,
    now: Clock,
)
    requires
        ({
            let target = newest_target(m.seek_target, ts, pos);
            let expected: int = if m.local.paused {
                target.1 as int
            } else {
                clamped(target.1 + (now.wall_ms - target.0)) as int
            };
            distance(expected, m.local.position as int) <= SEEK_IGNORE_THRES_MS
        }),
    ensures
        ({
            let n = m.step(
                Incoming::Network(MessageModel { user_id: from, ts, action: Action::Seek { pos } }),
                now,
            );
            &&& n.outbox == m.met(now, from).outbox
            &&& known(m.peers, from) ==> n.outbox == m.outbox
            &&& n.local == m.local
            &&& n.seek_target == Some(newest_target(m.seek_target, ts, pos))
        }),
{
    lemma_met(m, now, from);
}

/// A heartbeat that arrives within the skip time of the last seek event,
/// or of the newest remote seek, does not compare positions: it reports
/// the local position, refreshes the overlay, and stops nothing.
pub proof fn law_heartbeat_after_seek(m: Model, now: Clock)
    requires
        elapsed(now.monotonic_ms, m.last_seek_event) <= SKIP_DESYNC_AFTER_SEEK_MS
            || m.recent_network_seek(now),
    ensures
        m.heartbeat(now) == m.to_network(Action::Position { pos: m.local.position }).osd_shown(now),
        m.heartbeat(now).local == m.local,
        m.heartbeat(now).outbox.len() == m.outbox.len() + 2,
{
    law_osd_shown(m.to_network(Action::Position { pos: m.local.position }), now);
}

/// The machine after the events in order, each with the clocks read at its
/// arrival, when nothing is taken from the outbox in between.
pub open spec fn after_events(m: Model, events: Seq<(Incoming, Clock)>) -> Model
    decreases events.len(),
{
    if events.len() == 0 {
        m
    } else {
        after_events(m, events.drop_last()).step(events.last().0, events.last().1)
    }
}

/// No event of the run meets the machine as a silent newcomer.
pub open spec fn without_silent_newcomers(m: Model, events: Seq<(Incoming, Clock)>) -> bool
    decreases events.len(),
{
    events.len() == 0 || (without_silent_newcomers(m, events.drop_last()) && !silent_newcomer(
        after_events(m, events.drop_last()),
        events.last().0,
    ))
}

/// From the start, after any run of events without silent newcomers: the
/// network counts as ready exactly when a peer is known and all known peers
/// are ready; while it is not ready, the player is held; and no two peers
/// share a name.
pub proof fn law_run(now: Clock, events: Seq<(Incoming, Clock)>)
    requires
        without_silent_newcomers(Model::initial(now), events),
    ensures
        readiness_agrees(after_events(Model::initial(now), events)),
        held_unless_ready(after_events(Model::initial(now), events)),
        unique_names(after_events(Model::initial(now), events).peers),
    decreases events.len(),
{
    if events.len() == 0 {
        law_initial(now);
    } else {
        law_run(now, events.drop_last());
        let m = after_events(Model::initial(now), events.drop_last());
        law_network_ready(m, events.last().0, events.last().1);
        law_agreement_excludes_reveal(m, events.last().0, events.last().1);
        law_held_unless_ready(m, events.last().0, events.last().1);
        law_names_stay_unique(m, events.last().0, events.last().1);
    }
}

/// A pause or a resume reported by the player clears the remote seek on
/// record.
pub proof fn law_pause_clears_target(m: Model, resumed: bool, now: Clock)
    ensures
        m.step(
            Incoming::Mpv(
                EventModel::Event { event: if resumed { "unpause"@ } else { "pause"@ } },
            ),
            now,
        ).seek_target is None,
{
    reveal_strlit("pause");
    reveal_strlit("unpause");
    assert("pause"@.len() != "unpause"@.len());
    let a = Model {
        local: State { paused: !resumed, ..m.local },
        seek_target: None,
        ..m
    };
    if resumed {
        law_unpause_suppressed(a, now, "not ready"@);
        let b = if !a.local.ready {
            a.unpause_suppressed(now, "not ready"@)
        } else {
            a
        };
        law_unpause_suppressed(b, now, "network is not ready"@);
    } else {
        law_became_unready(a, now, "local pause"@);
    }
}

/// A hello from any sender leaves the network not ready, the local
/// participant not ready, and the player asked to pause or paused already.
pub proof fn law_hello_resets(m: Model, from: Seq<char>, ts: u64, now: Clock)
    ensures
        ({
            let n = m.step(
                Incoming::Network(MessageModel { user_id: from, ts, action: Action::Hello }),
                now,
            );
            &&& !n.network_ready
            &&& !n.local.ready
            &&& n.local.paused
            &&& !m.local.paused ==> last_pause_command(n.outbox) == Some(true)
        }),
{
    let a = m.met(now, from);
    lemma_met(m, now, from);
    let b = Model { network_ready: false, ..a.peer_changed(from, PeerChange::Ready(false)) };
    law_other_joined(b, now, from);
    let c = b.other_joined(now, from);
    law_playback_stopped(c, now, from + " joined"@);
}

/// A peer that turns not ready leaves the network not ready, the local
/// participant not ready unless the player was paused already, and the
/// player asked to pause or paused already.
pub proof fn law_remote_unready_stops(m: Model, from: Seq<char>, ts: u64, now: Clock)
    ensures
        ({
            let n = m.step(
                Incoming::Network(MessageModel { user_id: from, ts, action: Action::Unready }),
                now,
            );
            &&& !n.network_ready
            &&& n.local.paused
            &&& !m.local.paused ==> !n.local.ready && last_pause_command(n.outbox) == Some(true)
        }),
{
    let a = m.met(now, from);
    lemma_met(m, now, from);
    let b = Model { network_ready: false, ..a.peer_changed(from, PeerChange::Ready(false)) };
    law_playback_stopped(b, now, from + " is not ready"@);
    let c = if !b.local.paused {
        b.playback_stopped(now, from + " is not ready"@)
    } else {
        b
    };
    law_osd_shown(c.logged(now, from + " is not ready"@), now);
}

/// Pressing the ready key while not ready and with the network ready
/// announces readiness and starts playback: a paused player is asked to
/// resume; a player that runs already is left alone.
pub proof fn law_ready_press_starts(m: Model, now: Clock)
    requires
        !m.local.ready,
        m.network_ready,
    ensures
        ({
            let n = m.step(
                Incoming::Mpv(EventModel::ClientMessage { id: "ready_pressed"@ }),
                now,
            );
            &&& n.local.ready
            &&& !n.local.paused
            &&& n.network_ready
            &&& announced(n.outbox) == announced(m.outbox).push(Action::Ready)
            &&& m.local.paused ==> last_pause_command(n.outbox) == Some(false)
            &&& !m.local.paused ==> n == m.became_ready(now) && last_pause_command(n.outbox)
                == last_pause_command(m.outbox)
        }),
{
    law_became_ready(m, now);
    law_playback_started(m.became_ready(now), now);
}

/// After a remote seek the seek on record is the newest heard of: the one
/// that arrived if none was on record or the one on record is stamped
/// earlier, else the one that was on record.
pub proof fn law_newest_seek_wins(m: Model, from: Seq<char>, ts: u64, pos: i64, now: Clock)
    ensures
        ({
            let n = m.step(
                Incoming::Network(MessageModel { user_id: from, ts, action: Action::Seek { pos } }),
                now,
            );
            &&& n.seek_target matches Some(t) && t.0 >= ts && (t == (ts, pos) || m.seek_target
                == Some(t))
            &&& m.seek_target matches Some(prior) ==> n.seek_target.unwrap().0 >= prior.0
            &&& m.seek_target matches Some(prior) ==> (n.seek_target == Some((ts, pos)) <==> (
            prior.0 < ts || prior == (ts, pos)))
            &&& n.last_seek_event == now.monotonic_ms
        }),
{
    lemma_met(m, now, from);
}

/// A peer, once known, stays known: no event removes it.
pub proof fn law_peers_stay(m: Model, e: Incoming, now: Clock, name: Seq<char>)
    requires
        known(m.peers, name),
    ensures
        known(m.step(e, now).peers, name),
        m.step(e, now).peers.len() >= m.peers.len(),
{
    match e {
        Incoming::KeepAlive => {
            lemma_heartbeat(m, now);
        },
        Incoming::Mpv(ev) => {
            lemma_player_event(m, ev, now);
        },
        Incoming::Network(msg) => {
            let from = msg.user_id;
            let a = m.met(now, from);
            lemma_met(m, now, from);
            let i = choose|i: int| 0 <= i < m.peers.len() && (#[trigger] m.peers[i]).name == name;
            assert(a.peers[i].name == name);
            assert(known(a.peers, name));
            let c = match msg.action {
                Action::Hello => PeerChange::Ready(false),
                Action::Ready => PeerChange::Ready(true),
                Action::Unready => PeerChange::Ready(false),
                Action::Seek { pos } => PeerChange::Position(pos),
                Action::Position { pos } => PeerChange::Position(pos),
                Action::Speed { speed } => PeerChange::Speed(speed),
            };
            lemma_change_keeps_names(a.peers, from, c);
            lemma_network_peers(m, msg, now);
        },
    }
}

proof fn lemma_network_peers(m: Model, msg: MessageModel, now: Clock)
    ensures
        m.network_event(msg, now).peers == with_change(
            m.met(now, msg.user_id).peers,
            msg.user_id,
            match msg.action {
                Action::Hello => PeerChange::Ready(false),
                Action::Ready => PeerChange::Ready(true),
                Action::Unready => PeerChange::Ready(false),
                Action::Seek { pos } => PeerChange::Position(pos),
                Action::Position { pos } => PeerChange::Position(pos),
                Action::Speed { speed } => PeerChange::Speed(speed),
            },
        ),
{
    let from = msg.user_id;
    let a = m.met(now, from);
    match msg.action {
        Action::Hello => {
            let b = Model { network_ready: false, ..a.peer_changed(from, PeerChange::Ready(false)) };
            law_other_joined(b, now, from);
            law_playback_stopped(b.other_joined(now, from), now, from + " joined"@);
        },
        Action::Ready => {
            let b = a.peer_changed(from, PeerChange::Ready(true));
            let b2 = Model { network_ready: all_ready(b.peers), ..b };
            law_playback_started(b2, now);
            let b3 = if b2.local.ready && b2.network_ready {
                b2.playback_started(now)
            } else {
                b2
            };
            law_osd_shown(b3.logged(now, from + " is ready"@), now);
        },
        Action::Unready => {
            let b = Model { network_ready: false, ..a.peer_changed(from, PeerChange::Ready(false)) };
            law_playback_stopped(b, now, from + " is not ready"@);
            let b2 = if !b.local.paused {
                b.playback_stopped(now, from + " is not ready"@)
            } else {
                b
            };
            law_osd_shown(b2.logged(now, from + " is not ready"@), now);
        },
        Action::Seek { pos } => {},
        Action::Position { pos } => {},
        Action::Speed { speed } => {
            let b = a.peer_changed(from, PeerChange::Speed(speed));
            law_osd_shown(
                b.to_player(RequestModel::speed(speed)).logged(
                    now,
                    from + " changed speed to "@ + decimal_text(speed as int),
                ),
                now,
            );
        },
    }
}

/// The peer that a desync stop names is at the largest distance from the
/// local position, and every peer after it is strictly nearer.
pub proof fn law_farthest_is_largest(peers: Seq<PeerModel>, pos: i64)
    requires
        peers.len() > 0,
    ensures
        0 <= farthest(peers, pos) < peers.len(),
        forall|i: int|
            0 <= i < peers.len() ==> distance((#[trigger] peers[i]).state.position as int, pos as int)
                <= distance(peers[farthest(peers, pos)].state.position as int, pos as int),
        forall|i: int|
            farthest(peers, pos) < i < peers.len() ==> distance(
                (#[trigger] peers[i]).state.position as int,
                pos as int,
            ) < distance(peers[farthest(peers, pos)].state.position as int, pos as int),
    decreases peers.len(),
{
    if peers.len() > 1 {
        let front = peers.drop_last();
        law_farthest_is_largest(front, pos);
        let k = farthest(front, pos);
        assert(front[k] == peers[k]);
        assert forall|i: int| 0 <= i < peers.len() implies distance(
            (#[trigger] peers[i]).state.position as int,
            pos as int,
        ) <= distance(peers[farthest(peers, pos)].state.position as int, pos as int) by {
            if i < front.len() {
                assert(front[i] == peers[i]);
            }
        }
        assert forall|i: int| farthest(peers, pos) < i < peers.len() implies distance(
            (#[trigger] peers[i]).state.position as int,
            pos as int,
        ) < distance(peers[farthest(peers, pos)].state.position as int, pos as int) by {
            if i < front.len() {
                assert(front[i] == peers[i]);
            }
        }
    }
}

/// The look at the seek on record after the player restarted playback
/// touches the pending flag only. With no seek on record the flag is set;
/// with one, it is set exactly when the local position is farther than the
/// threshold from where that seek, moved on by the time since it was sent
/// unless the player is paused, expects it; else it stays as it was.
pub proof fn law_seek_target_checked(m: Model, now: Clock)
    ensures
        ({
            let n = m.seek_target_checked(now);
            &&& n == (Model { pending_seek: m.pending_seek || m.off_target(now), ..m })
            &&& m.seek_target is None ==> n.pending_seek
            &&& m.seek_target matches Some(t) ==> (m.off_target(now) <==> distance(
                if m.local.paused {
                    t.1 as int
                } else {
                    clamped(t.1 + (now.wall_ms - t.0)) as int
                },
                m.local.position as int,
            ) > SEEK_IGNORE_THRES_MS)
        }),
{
}

/// No event of the run is a `Ready` that finds the network ready and the
/// player running and leaves the network not ready.
pub open spec fn without_reveals(m: Model, events: Seq<(Incoming, Clock)>) -> bool
    decreases events.len(),
{
    events.len() == 0 || (without_reveals(m, events.drop_last()) && !ready_reveals_unready(
        after_events(m, events.drop_last()),
        events.last().0,
        events.last().1,
    ))
}

/// From the start, after any run of events without such a `Ready`: while
/// the network is not ready, and so whenever the local participant is ready
/// and the network is not, the player is held.
pub proof fn law_run_held(now: Clock, events: Seq<(Incoming, Clock)>)
    requires
        without_reveals(Model::initial(now), events),
    ensures
        held_unless_ready(after_events(Model::initial(now), events)),
    decreases events.len(),
{
    if events.len() > 0 {
        law_run_held(now, events.drop_last());
        law_held_unless_ready(
            after_events(Model::initial(now), events.drop_last()),
            events.last().0,
            events.last().1,
        );
    }
}

} // verus!
