//! The mathematical model of the coordination state machine: what the
//! machine holds, as sequences and plain values, and the transition that
//! each kind of event causes. The executable machine is proved to follow
//! this model step by step.

use vstd::prelude::*;
use crate::mpv::{BoolProperty, EventModel, FloatProperty, RequestModel};
use crate::proto::Action;
use crate::text::{decimal_text, joined, magnitude_text};

verus! {

/// A remote seek closer than this to the local position is not applied, and
/// a local jump closer than this to the expected position is not announced.
pub const SEEK_IGNORE_THRES_MS: u64 = 500;

/// The largest distance to a peer that playback tolerates.
pub const MAX_DESYNC_MS: u64 = 1500;

/// How long after a seek the distance to the peers is not checked.
pub const SKIP_DESYNC_AFTER_SEEK_MS: u64 = 2000;

/// How long a log line stays on screen.
pub const LOG_DISPLAY_MS: u64 = 1000;

/// A remote speed closer than this to the local one is not applied, in
/// thousandths.
pub const SPEED_TOLERANCE: u64 = 100;

/// The two clocks read when an event arrives: a monotonic one and the wall
/// clock since the epoch, both in milliseconds.
#[derive(Clone, Copy, Debug, PartialEq, Eq, Structural)]
pub struct Clock {
    pub monotonic_ms: u64,
    pub wall_ms: u64,
}

/// The playback state of one participant. `seeking` is used for the local
/// participant only.
#[derive(Clone, Copy, Debug, PartialEq, Eq, Structural)]
pub struct State {
    pub position: i64,
    pub speed: i64,
    pub ready: bool,
    pub paused: bool,
    pub seeking: bool,
}

impl State {
    /// The state of a participant of whom nothing is known yet.
    pub open spec fn initial() -> State {
        State { position: 0, speed: 0, ready: false, paused: false, seeking: false }
    }
}

impl Default for State {
    fn default() -> (r: State)
        ensures
            r == State::initial(),
    {
        State { position: 0, speed: 0, ready: false, paused: false, seeking: false }
    }
}

/// A remote participant: the user id and the last state heard of.
pub struct PeerModel {
    pub name: Seq<char>,
    pub state: State,
}

/// One line of the on-screen log and the monotonic time it was written.
pub struct LogLine {
    pub when: u64,
    pub what: Seq<char>,
}

/// Something the machine sends out: a request to the player or an action
/// for the other peers.
pub enum Emitted {
    Player(RequestModel),
    Network(Action),
}

/// A message from a peer.
pub struct MessageModel {
    pub user_id: Seq<char>,
    pub ts: u64,
    pub action: Action,
}

/// An event for the machine.
pub enum Incoming {
    Mpv(EventModel),
    Network(MessageModel),
    KeepAlive,
}

/// A change to what is known about one peer.
#[derive(Clone, Copy, Debug, PartialEq, Eq, Structural)]
pub enum PeerChange {
    Ready(bool),
    Position(i64),
    Speed(i64),
}

/// The state with the change applied.
pub open spec fn changed(s: State, c: PeerChange) -> State {
    match c {
        PeerChange::Ready(ready) => State { ready, ..s },
        PeerChange::Position(position) => State { position, ..s },
        PeerChange::Speed(speed) => State { speed, ..s },
    }
}

/// The time from `then` to `now` on the monotonic clock, zero if `then` is
/// not in the past.
pub open spec fn elapsed(now: u64, then: u64) -> int {
    if now >= then {
        now - then
    } else {
        0
    }
}

/// The distance between two numbers.
pub open spec fn distance(a: int, b: int) -> int {
    if a >= b {
        a - b
    } else {
        b - a
    }
}

/// The nearest `i64` to an integer.
pub open spec fn clamped(v: int) -> i64 {
    if v > i64::MAX {
        i64::MAX
    } else if v < i64::MIN {
        i64::MIN
    } else {
        v as i64
    }
}

/// The test for a line to be younger than the display time.
pub open spec fn young_at(now: u64) -> spec_fn(LogLine) -> bool {
    |l: LogLine| elapsed(now, l.when) < LOG_DISPLAY_MS
}

/// The lines that are younger than the display time, in their order.
pub open spec fn retained(log: Seq<LogLine>, now: u64) -> Seq<LogLine> {
    log.filter(young_at(now))
}

/// Whether a peer of the given name was heard before.
pub open spec fn known(peers: Seq<PeerModel>, name: Seq<char>) -> bool {
    exists|i: int| 0 <= i < peers.len() && (#[trigger] peers[i]).name == name
}

/// No two peers share a name.
pub open spec fn unique_names(peers: Seq<PeerModel>) -> bool {
    forall|i: int, j: int|
        0 <= i < j < peers.len() ==> (#[trigger] peers[i]).name != (#[trigger] peers[j]).name
}

/// At least one peer is known and every known peer is ready.
pub open spec fn all_ready(peers: Seq<PeerModel>) -> bool {
    peers.len() > 0 && forall|i: int| 0 <= i < peers.len() ==> (#[trigger] peers[i]).state.ready
}

/// The peers with the change applied to the one of the given name.
pub open spec fn with_change(peers: Seq<PeerModel>, name: Seq<char>, c: PeerChange) -> Seq<
    PeerModel,
> {
    Seq::new(
        peers.len(),
        |i: int|
            if peers[i].name == name {
                PeerModel { name: peers[i].name, state: changed(peers[i].state, c) }
            } else {
                peers[i]
            },
    )
}

/// The index of a peer at the largest distance from `pos`; of several such,
/// the last. Zero when there are no peers.
pub open spec fn farthest(peers: Seq<PeerModel>, pos: i64) -> int
    decreases peers.len(),
{
    if peers.len() <= 1 {
        0
    } else {
        let k = farthest(peers.drop_last(), pos);
        if distance(peers.last().state.position as int, pos as int) >= distance(
            peers[k].state.position as int,
            pos as int,
        ) {
            peers.len() - 1
        } else {
            k
        }
    }
}

/// The seek target after a remote seek stamped `ts`: the new one if none
/// is on record or the one on record is stamped earlier, else the one on
/// record.
pub open spec fn newest_target(prior: Option<(u64, i64)>, ts: u64, pos: i64) -> (u64, i64) {
    match prior {
        Some(old_target) => if old_target.0 < ts {
            (ts, pos)
        } else {
            old_target
        },
        None => (ts, pos),
    }
}

/// The overlay markup that colours what follows: green for ready, red for
/// not ready.
pub open spec fn color(on: bool) -> Seq<char> {
    if on {
        "{\\c&HFF00&}"@
    } else {
        "{\\c&HFF&}"@
    }
}

/// The overlay line that shows the local and the network readiness.
pub open spec fn local_line(ready: bool, network_ready: bool) -> Seq<char> {
    "ready: "@ + color(ready) + "you{\\r} "@ + color(network_ready) + "network{\\r}"@
}

/// The overlay line of one peer: its name, coloured by its readiness.
pub open spec fn peer_line(p: PeerModel) -> Seq<char> {
    color(p.state.ready) + p.name + "{\\r}"@
}

/// The overlay line of one log entry.
pub open spec fn log_line(l: LogLine) -> Seq<char> {
    "{\\fs40}"@ + l.what + "{\\r}"@
}

/// The overlay lines of the peers, in their order.
pub open spec fn peer_lines(peers: Seq<PeerModel>) -> Seq<Seq<char>> {
    Seq::new(peers.len(), |i: int| peer_line(peers[i]))
}

/// The log lines, newest first.
pub open spec fn log_lines(log: Seq<LogLine>) -> Seq<Seq<char>> {
    Seq::new(log.len(), |i: int| log_line(log[log.len() - 1 - i]))
}

/// The reason given when playback stops because a peer is `d`
/// thousandths of a second away.
pub open spec fn desync_reason(name: Seq<char>, d: nat) -> Seq<char> {
    name + " is out of sync by "@ + magnitude_text(d) + ", stopping"@
}

/// What the state machine holds.
pub struct Model {
    /// The known peers, in the order in which they were first heard.
    pub peers: Seq<PeerModel>,
    pub local: State,
    pub network_ready: bool,
    pub log: Seq<LogLine>,
    /// The newest remote seek: the sender's wall clock and the position.
    pub seek_target: Option<(u64, i64)>,
    /// Whether the next reported position is announced as a seek.
    pub pending_seek: bool,
    /// The monotonic time of the last event that had to do with seeking.
    pub last_seek_event: u64,
    /// Everything sent out and not yet taken, oldest first.
    pub outbox: Seq<Emitted>,
}

impl Model {
    /// The machine at start: no peers, paused, nothing pending.
    pub open spec fn initial(now: Clock) -> Model {
        Model {
            peers: Seq::<PeerModel>::empty(),
            local: State { paused: true, ..State::initial() },
            network_ready: false,
            log: Seq::<LogLine>::empty(),
            seek_target: None,
            pending_seek: false,
            last_seek_event: now.monotonic_ms,
            outbox: Seq::<Emitted>::empty(),
        }
    }

    /// The machine with one more thing to send.
    pub open spec fn emit(self, o: Emitted) -> Model {
        Model { outbox: self.outbox.push(o), ..self }
    }

    /// The machine with one more request to the player.
    pub open spec fn to_player(self, r: RequestModel) -> Model {
        self.emit(Emitted::Player(r))
    }

    /// The machine with one more action to announce.
    pub open spec fn to_network(self, a: Action) -> Model {
        self.emit(Emitted::Network(a))
    }

    /// The machine with one more log line, written now.
    pub open spec fn logged(self, now: Clock, what: Seq<char>) -> Model {
        Model { log: self.log.push(LogLine { when: now.monotonic_ms, what }), ..self }
    }

    /// The text of the status overlay.
    pub open spec fn osd_text(self) -> Seq<char> {
        "\\N\\N"@ + local_line(self.local.ready, self.network_ready) + "\\N"@ + joined(
            peer_lines(self.peers),
            "\\N"@,
        ) + "\\N"@ + joined(log_lines(self.log), "\\N"@)
    }

    /// Refreshing the overlay: old log lines go; with no line left and
    /// playback running the overlay is cleared, else the status is shown.
    pub open spec fn osd_shown(self, now: Clock) -> Model {
        let m = Model { log: retained(self.log, now.monotonic_ms), ..self };
        if m.log.len() == 0 && !m.local.paused {
            m.to_player(RequestModel::osd_overlay(Seq::<char>::empty()))
        } else {
            m.to_player(RequestModel::osd_overlay(m.osd_text()))
        }
    }

    /// The local participant turns ready: a log line, a refreshed overlay,
    /// and the announcement.
    pub open spec fn became_ready(self, now: Clock) -> Model {
        Model { local: State { ready: true, ..self.local }, ..self }.logged(
            now,
            "you are ready"@,
        ).osd_shown(now).to_network(Action::Ready)
    }

    /// The local participant turns not ready: the announcement, a log line
    /// with the reason, and a refreshed overlay.
    pub open spec fn became_unready(self, now: Clock, reason: Seq<char>) -> Model {
        Model { local: State { ready: false, ..self.local }, ..self }.to_network(
            Action::Unready,
        ).logged(now, "you not ready: "@ + reason).osd_shown(now)
    }

    /// Playback starts, if the player is paused: the remote seek on record
    /// is dropped, the player is taken to run and asked to resume, a log
    /// line is written and the overlay refreshed. On a running player
    /// nothing happens.
    pub open spec fn playback_started(self, now: Clock) -> Model {
        if self.local.paused {
            Model {
                local: State { paused: false, ..self.local },
                seek_target: None,
                ..self
            }.to_player(RequestModel::set_pause(false)).logged(
                now,
                "everyone is ready, go"@,
            ).osd_shown(now)
        } else {
            self
        }
    }

    /// Playback stops for a reason: a running player is asked to pause and
    /// the remote seek on record is dropped; a ready participant turns not
    /// ready.
    pub open spec fn playback_stopped(self, now: Clock, reason: Seq<char>) -> Model {
        let m1 = if !self.local.paused {
            Model {
                local: State { paused: true, ..self.local },
                seek_target: None,
                ..self
            }.to_player(RequestModel::set_pause(true))
        } else {
            self
        };
        let m2 = if m1.local.ready {
            m1.became_unready(now, reason)
        } else {
            m1
        };
        m2.logged(now, "stopped playback: "@ + reason).osd_shown(now)
    }

    /// A resume that the rules forbid is answered: the player is asked to
    /// pause and the local participant turns not ready.
    pub open spec fn unpause_suppressed(self, now: Clock, reason: Seq<char>) -> Model {
        self.to_player(RequestModel::set_pause(true)).became_unready(now, reason)
    }

    /// A peer is greeted on the overlay.
    pub open spec fn other_joined(self, now: Clock, name: Seq<char>) -> Model {
        self.logged(now, "oh hi "@ + name).osd_shown(now)
    }

    /// Where playback should be according to the newest remote seek: its
    /// position, moved on by the wall-clock time since it was sent unless
    /// playback is paused.
    pub open spec fn calculated_pos(self, now: Clock) -> Option<i64> {
        match self.seek_target {
            Some(target) => Some(
                if self.local.paused {
                    target.1
                } else {
                    clamped(target.1 + (now.wall_ms - target.0))
                },
            ),
            None => None,
        }
    }

    /// Whether the local position is farther from the expected one than the
    /// seek threshold. True when no remote seek is on record.
    pub open spec fn off_target(self, now: Clock) -> bool {
        match self.calculated_pos(now) {
            Some(calc) => distance(calc as int, self.local.position as int) > SEEK_IGNORE_THRES_MS,
            None => true,
        }
    }

    /// After the player restarted playback: if the local position is off
    /// the expected one, the next reported position is announced as a seek.
    pub open spec fn seek_target_checked(self, now: Clock) -> Model {
        if self.off_target(now) {
            Model { pending_seek: true, ..self }
        } else {
            self
        }
    }

    /// Whether a remote seek is on record that is not older than the skip
    /// time on the wall clock.
    pub open spec fn recent_network_seek(self, now: Clock) -> bool {
        match self.seek_target {
            Some(target) => now.wall_ms - target.0 <= SKIP_DESYNC_AFTER_SEEK_MS,
            None => false,
        }
    }

    /// Whether the heartbeat compares positions with the peers.
    pub open spec fn desync_checked(self, now: Clock) -> bool {
        !self.local.paused && elapsed(now.monotonic_ms, self.last_seek_event)
            > SKIP_DESYNC_AFTER_SEEK_MS && !self.recent_network_seek(now)
    }

    /// The largest distance from the local position to a peer's.
    pub open spec fn desync(self) -> nat
        recommends
            self.peers.len() > 0,
    {
        distance(
            self.peers[farthest(self.peers, self.local.position)].state.position as int,
            self.local.position as int,
        ) as nat
    }

    /// The periodic tick: the local position is reported; if positions are
    /// compared and a peer is farther away than tolerated, playback stops;
    /// the overlay is refreshed.
    pub open spec fn heartbeat(self, now: Clock) -> Model {
        let m1 = self.to_network(Action::Position { pos: self.local.position });
        let m2 = if m1.desync_checked(now) && m1.peers.len() > 0 && m1.desync() > MAX_DESYNC_MS {
            m1.playback_stopped(
                now,
                desync_reason(m1.peers[farthest(m1.peers, m1.local.position)].name, m1.desync()),
            )
        } else {
            m1
        };
        m2.osd_shown(now)
    }

    /// The machine after an event of the local player.
    pub open spec fn player_event(self, e: EventModel, now: Clock) -> Model {
        match e {
            EventModel::SuccessResponse { .. } => self,
            EventModel::ErrorResponse { .. } => self,
            EventModel::Seek => Model { last_seek_event: now.monotonic_ms, ..self },
            EventModel::BoolPropertyChange { property: BoolProperty::Seeking, value } => Model {
                local: State { seeking: value, ..self.local },
                last_seek_event: now.monotonic_ms,
                ..self
            },
            EventModel::FloatPropertyChange { property: FloatProperty::TimePos, value } => {
                let m = Model { local: State { position: value, ..self.local }, ..self };
                if m.pending_seek {
                    Model { pending_seek: false, ..m }.to_network(
                        Action::Seek { pos: if value >= 0 { value } else { 0i64 } },
                    )
                } else {
                    m
                }
            },
            EventModel::FloatPropertyChange { property: FloatProperty::Speed, value } => Model {
                local: State { speed: value, ..self.local },
                ..self
            }.to_network(Action::Speed { speed: value }),
            EventModel::ClientMessage { id } => if id == "ready_pressed"@ {
                if self.local.ready {
                    self.became_unready(now, "local unready"@)
                } else {
                    let m = self.became_ready(now);
                    if m.network_ready {
                        m.playback_started(now)
                    } else {
                        m
                    }
                }
            } else {
                self
            },
            EventModel::Event { event } => if event == "pause"@ {
                let m = Model {
                    local: State { paused: true, ..self.local },
                    seek_target: None,
                    ..self
                };
                if m.local.ready {
                    m.became_unready(now, "local pause"@)
                } else {
                    m
                }
            } else if event == "unpause"@ {
                let m = Model {
                    local: State { paused: false, ..self.local },
                    seek_target: None,
                    ..self
                };
                let m1 = if !m.local.ready {
                    m.unpause_suppressed(now, "not ready"@)
                } else {
                    m
                };
                if !m1.network_ready {
                    m1.unpause_suppressed(now, "network is not ready"@)
                } else {
                    m1
                }
            } else if event == "playback-restart"@ {
                self.seek_target_checked(now)
            } else {
                self
            },
        }
    }

    /// The machine after the first contact with a sender: a new peer is
    /// added, not ready, and greeted.
    pub open spec fn met(self, now: Clock, from: Seq<char>) -> Model {
        if known(self.peers, from) {
            self
        } else {
            Model {
                peers: self.peers.push(PeerModel { name: from, state: State::initial() }),
                ..self
            }.other_joined(now, from)
        }
    }

    /// The machine with a change to what is known of one peer.
    pub open spec fn peer_changed(self, from: Seq<char>, c: PeerChange) -> Model {
        Model { peers: with_change(self.peers, from, c), ..self }
    }

    /// A seek announced by a peer: the peer's position and the newest seek
    /// are recorded, and the player is asked to jump unless it is within the
    /// threshold of where it should be.
    pub open spec fn remote_seek(self, now: Clock, from: Seq<char>, ts: u64, pos: i64) -> Model {
        let m1 = Model { last_seek_event: now.monotonic_ms, ..self }.peer_changed(
            from,
            PeerChange::Position(pos),
        );
        let m2 = Model { seek_target: Some(newest_target(m1.seek_target, ts, pos)), ..m1 };
        if m2.off_target(now) {
            m2.to_player(RequestModel::seek(m2.calculated_pos(now).unwrap()))
        } else {
            m2
        }
    }

    /// The machine after a message of a peer.
    pub open spec fn network_event(self, msg: MessageModel, now: Clock) -> Model {
        let from = msg.user_id;
        let m = self.met(now, from);
        match msg.action {
            Action::Hello => Model {
                network_ready: false,
                ..m.peer_changed(from, PeerChange::Ready(false))
            }.other_joined(now, from).playback_stopped(now, from + " joined"@),
            Action::Ready => {
                let m1 = m.peer_changed(from, PeerChange::Ready(true));
                let m2 = Model { network_ready: all_ready(m1.peers), ..m1 };
                let m3 = if m2.local.ready && m2.network_ready {
                    m2.playback_started(now)
                } else {
                    m2
                };
                m3.logged(now, from + " is ready"@).osd_shown(now)
            },
            Action::Unready => {
                let m1 = Model {
                    network_ready: false,
                    ..m.peer_changed(from, PeerChange::Ready(false))
                };
                let m2 = if !m1.local.paused {
                    m1.playback_stopped(now, from + " is not ready"@)
                } else {
                    m1
                };
                m2.logged(now, from + " is not ready"@).osd_shown(now)
            },
            Action::Seek { pos } => m.remote_seek(now, from, msg.ts, pos),
            Action::Position { pos } => m.peer_changed(from, PeerChange::Position(pos)),
            Action::Speed { speed } => {
                let m1 = m.peer_changed(from, PeerChange::Speed(speed));
                if distance(m1.local.speed as int, speed as int) > SPEED_TOLERANCE {
                    m1.to_player(RequestModel::speed(speed)).logged(
                        now,
                        from + " changed speed to "@ + decimal_text(speed as int),
                    ).osd_shown(now)
                } else {
                    m1
                }
            },
        }
    }

    /// The machine after one event.
    pub open spec fn step(self, e: Incoming, now: Clock) -> Model {
        match e {
            Incoming::KeepAlive => self.heartbeat(now),
            Incoming::Mpv(ev) => self.player_event(ev, now),
            Incoming::Network(msg) => self.network_event(msg, now),
        }
    }
}

/// Changing what is known of a peer changes no name.
pub proof fn lemma_change_keeps_names(peers: Seq<PeerModel>, name: Seq<char>, c: PeerChange)
    ensures
        with_change(peers, name, c).len() == peers.len(),
        forall|i: int|
            0 <= i < peers.len() ==> (#[trigger] with_change(peers, name, c)[i]).name
                == peers[i].name,
        unique_names(peers) ==> unique_names(with_change(peers, name, c)),
        forall|other: Seq<char>| known(peers, other) == known(with_change(peers, name, c), other),
{
    let after = with_change(peers, name, c);
    assert forall|other: Seq<char>| known(peers, other) == known(after, other) by {
        if known(peers, other) {
            let i = choose|i: int| 0 <= i < peers.len() && (#[trigger] peers[i]).name == other;
            assert(after[i].name == other);
        }
        if known(after, other) {
            let i = choose|i: int| 0 <= i < after.len() && (#[trigger] after[i]).name == other;
            assert(peers[i].name == other);
        }
    }
    if unique_names(peers) {
        assert forall|i: int, j: int| 0 <= i < j < after.len() implies (#[trigger] after[i]).name
            != (#[trigger] after[j]).name by {
            assert(peers[i].name != peers[j].name);
        }
    }
}

/// What stays after old lines are dropped is no longer than the log and
/// holds young lines only.
pub proof fn lemma_retained(log: Seq<LogLine>, now: u64)
    ensures
        retained(log, now).len() <= log.len(),
        forall|i: int|
            0 <= i < retained(log, now).len() ==> elapsed(
                now,
                (#[trigger] retained(log, now)[i]).when,
            ) < LOG_DISPLAY_MS,
{
    log.lemma_filter_len(young_at(now));
    assert forall|i: int| 0 <= i < retained(log, now).len() implies elapsed(
        now,
        (#[trigger] retained(log, now)[i]).when,
    ) < LOG_DISPLAY_MS by {
        log.lemma_filter_pred(young_at(now), i);
    }
}

} // verus!
