//! The coordination state machine. It takes one event at a time, together
//! with the clocks read at its arrival, updates what it knows of the local
//! player and of the peers, and queues what is to be sent to the player and
//! to the network. Every step follows the transition of the model.

use vstd::prelude::*;
use vstd::string::StringExecFns;
use vstd::pervasive::VecAdditionalExecFns;
use crate::model::{
    all_ready, color, distance, elapsed, farthest, known, lemma_change_keeps_names,
    lemma_retained, log_line, log_lines, peer_line, peer_lines, retained, unique_names,
    with_change, Clock, Emitted, Incoming, LogLine, Model, PeerChange, PeerModel, State,
    LOG_DISPLAY_MS, MAX_DESYNC_MS, SEEK_IGNORE_THRES_MS, SKIP_DESYNC_AFTER_SEEK_MS,
    SPEED_TOLERANCE,
};
use crate::mpv;
use crate::mpv::{BoolProperty, FloatProperty, Request};
use crate::proto;
use crate::proto::Action;
use crate::text::{decimal, decimal_unsigned, join_with, same_text, texts};

verus! {

/// A remote participant: the user id and the last state heard of.
#[derive(Clone, Debug, PartialEq, Eq)]
pub struct Peer {
    pub name: String,
    pub state: State,
}

impl View for Peer {
    type V = PeerModel;

    open spec fn view(&self) -> PeerModel {
        PeerModel { name: self.name@, state: self.state }
    }
}

/// One line of the on-screen log and the monotonic time it was written.
#[derive(Clone, Debug, PartialEq, Eq)]
pub struct LogEntry {
    pub when: u64,
    pub what: String,
}

impl View for LogEntry {
    type V = LogLine;

    open spec fn view(&self) -> LogLine {
        LogLine { when: self.when, what: self.what@ }
    }
}

/// Something to send out: a request to the player or an action for the
/// other peers.
#[derive(Clone, Debug, PartialEq, Eq)]
pub enum Output {
    Player(Request),
    Network(Action),
}

impl View for Output {
    type V = Emitted;

    open spec fn view(&self) -> Emitted {
        match *self {
            Output::Player(r) => Emitted::Player(r@),
            Output::Network(a) => Emitted::Network(a),
        }
    }
}

/// An event for the machine: from the local player, from a peer, or the
/// periodic heartbeat.
#[derive(Clone, Debug, PartialEq, Eq)]
pub enum Event {
    Mpv(mpv::Event),
    Network(proto::Message),
    KeepAlive,
}

impl View for Event {
    type V = Incoming;

    open spec fn view(&self) -> Incoming {
        match *self {
            Event::Mpv(e) => Incoming::Mpv(e@),
            Event::Network(m) => Incoming::Network(m@),
            Event::KeepAlive => Incoming::KeepAlive,
        }
    }
}

/// What a sequence of peers holds.
pub open spec fn peer_models(s: Seq<Peer>) -> Seq<PeerModel> {
    Seq::new(s.len(), |i: int| s[i]@)
}

/// What a sequence of log entries holds.
pub open spec fn log_models(s: Seq<LogEntry>) -> Seq<LogLine> {
    Seq::new(s.len(), |i: int| s[i]@)
}

/// What a sequence of outputs holds.
pub open spec fn emitted_models(s: Seq<Output>) -> Seq<Emitted> {
    Seq::new(s.len(), |i: int| s[i]@)
}

/// The distance between two positions.
pub fn span(a: i64, b: i64) -> (d: u64)
    ensures
        d == distance(a as int, b as int),
{
    let x: i128 = a as i128 - b as i128;
    if x >= 0 {
        x as u64
    } else {
        (-x) as u64
    }
}

fn concat2(a: &str, b: &str) -> (r: String)
    ensures
        r@ == a@ + b@,
{
    let mut s: String = String::from_str(a);
    s.append(b);
    s
}

fn concat3(a: &str, b: &str, c: &str) -> (r: String)
    ensures
        r@ == a@ + b@ + c@,
{
    let mut s: String = String::from_str(a);
    s.append(b);
    s.append(c);
    s
}

fn color_of(on: bool) -> (r: &'static str)
    ensures
        r@ == color(on),
{
    if on {
        "{\\c&HFF00&}"
    } else {
        "{\\c&HFF&}"
    }
}

/// The known peers, in the order in which they were first heard. No two
/// of them share a name.
struct PeerTable {
    entries: Vec<Peer>,
}

impl PeerTable {
    #[verifier::type_invariant]
    spec fn distinct(self) -> bool {
        unique_names(peer_models(self.entries@))
    }

    /// The table without peers.
    fn new() -> (t: PeerTable)
        ensures
            t.entries@.len() == 0,
    {
        let entries: Vec<Peer> = Vec::new();
        PeerTable { entries }
    }

    /// The table with one more peer, of whom nothing is known but the name.
    fn with_new(self, name: String) -> (t: PeerTable)
        requires
            !known(peer_models(self.entries@), name@),
        ensures
            peer_models(t.entries@) == peer_models(self.entries@).push(
                PeerModel { name: name@, state: State::initial() },
            ),
    {
        proof {
            use_type_invariant(&self);
        }
        let ghost before = peer_models(self.entries@);
        let ghost fresh = PeerModel { name: name@, state: State::initial() };
        let mut entries: Vec<Peer> = self.entries;
        entries.push(Peer { name, state: State::default() });
        proof {
            assert(peer_models(entries@) =~= before.push(fresh));
            assert forall|a: int, b: int| 0 <= a < b < before.len() + 1 implies (
            #[trigger] before.push(fresh)[a]).name != (#[trigger] before.push(fresh)[b]).name by {
                if b < before.len() {
                    assert(before[a].name != before[b].name);
                } else {
                    assert(before[a].name != fresh.name);
                }
            }
        }
        PeerTable { entries }
    }

    /// The table with a change to the peer at an index.
    fn with_change(self, idx: usize, c: PeerChange) -> (t: PeerTable)
        requires
            idx < self.entries@.len(),
        ensures
            peer_models(t.entries@) == with_change(
                peer_models(self.entries@),
                self.entries@[idx as int].name@,
                c,
            ),
    {
        proof {
            use_type_invariant(&self);
        }
        let ghost before = peer_models(self.entries@);
        let st: State = self.entries[idx].state;
        let state: State = match c {
            PeerChange::Ready(ready) => State {
                position: st.position,
                speed: st.speed,
                ready,
                paused: st.paused,
                seeking: st.seeking,
            },
            PeerChange::Position(position) => State {
                position,
                speed: st.speed,
                ready: st.ready,
                paused: st.paused,
                seeking: st.seeking,
            },
            PeerChange::Speed(speed) => State {
                position: st.position,
                speed,
                ready: st.ready,
                paused: st.paused,
                seeking: st.seeking,
            },
        };
        let name: String = self.entries[idx].name.clone();
        let mut entries: Vec<Peer> = self.entries;
        entries.set(idx, Peer { name, state });
        proof {
            let wanted = with_change(before, before[idx as int].name, c);
            assert(peer_models(entries@) =~= wanted) by {
                assert forall|i: int| 0 <= i < before.len() implies (#[trigger] peer_models(
                    entries@,
                )[i]) == wanted[i] by {
                    if i != idx as int {
                        assert(before[i].name != before[idx as int].name);
                    }
                }
            }
            lemma_change_keeps_names(before, before[idx as int].name, c);
        }
        PeerTable { entries }
    }
}

/// The coordination state machine.
pub struct StateMachine {
    global_state: PeerTable,
    local_state: State,
    network_ready: bool,
    log: Vec<LogEntry>,
    network_seek_target: Option<(u64, i64)>,
    send_remote_seek_on_next_pos: bool,
    last_seekrelated_event: u64,
    outbox: Vec<Output>,
}

impl View for StateMachine {
    type V = Model;

    closed spec fn view(&self) -> Model {
        Model {
            peers: peer_models(self.global_state.entries@),
            local: self.local_state,
            network_ready: self.network_ready,
            log: log_models(self.log@),
            seek_target: self.network_seek_target,
            pending_seek: self.send_remote_seek_on_next_pos,
            last_seek_event: self.last_seekrelated_event,
            outbox: emitted_models(self.outbox@),
        }
    }
}

impl StateMachine {
    /// A machine that knows no peer yet. The player is taken to be paused.
    pub fn new(now: Clock) -> (sm: StateMachine)
        ensures
            sm@ == Model::initial(now),
    {
        let sm = StateMachine {
            global_state: PeerTable::new(),
            local_state: State {
                position: 0,
                speed: 0,
                ready: false,
                paused: true,
                seeking: false,
            },
            network_ready: false,
            log: Vec::new(),
            network_seek_target: None,
            send_remote_seek_on_next_pos: false,
            last_seekrelated_event: now.monotonic_ms,
            outbox: Vec::new(),
        };
        proof {
            assert(sm@.peers =~= Seq::<PeerModel>::empty());
            assert(sm@.log =~= Seq::<LogLine>::empty());
            assert(sm@.outbox =~= Seq::<Emitted>::empty());
        }
        sm
    }

    fn emit(&mut self, o: Output)
        ensures
            final(self)@ == old(self)@.emit(o@),
    {
        self.outbox.push(o);
        proof {
            assert(emitted_models(self.outbox@) =~= emitted_models(old(self).outbox@).push(o@));
        }
    }

    fn push_log(&mut self, now: Clock, what: String)
        ensures
            final(self)@ == old(self)@.logged(now, what@),
    {
        let ghost text = what@;
        self.log.push(LogEntry { when: now.monotonic_ms, what });
        proof {
            assert(log_models(self.log@) =~= log_models(old(self).log@).push(
                LogLine { when: now.monotonic_ms, what: text },
            ));
        }
    }

    fn drop_old_lines(&mut self, now: Clock)
        ensures
            final(self)@ == (Model {
                log: retained(old(self)@.log, now.monotonic_ms),
                ..old(self)@
            }),
    {
        let mut kept: Vec<LogEntry> = Vec::new();
        let n: usize = self.log.len();
        let mut i: usize = 0;
        proof {
            reveal(Seq::filter);
            assert(log_models(self.log@.take(0)) =~= Seq::<LogLine>::empty());
            assert(log_models(kept@) =~= Seq::<LogLine>::empty());
        }
        while i < n
            invariant
                n == self.log@.len(),
                0 <= i <= n,
                log_models(kept@) == retained(
                    log_models(self.log@.take(i as int)),
                    now.monotonic_ms,
                ),
                *self == *old(self),
            decreases n - i,
        {
            let ghost before = log_models(self.log@.take(i as int));
            let ghost after = log_models(self.log@.take(i + 1));
            proof {
                reveal(Seq::filter);
                assert(after.drop_last() =~= before);
                assert(after.last() == self.log@[i as int]@);
            }
            let when: u64 = self.log[i].when;
            let age: u64 = if now.monotonic_ms >= when {
                now.monotonic_ms - when
            } else {
                0
            };
            if age < LOG_DISPLAY_MS {
                let what: String = self.log[i].what.clone();
                let ghost prior = log_models(kept@);
                kept.push(LogEntry { when, what });
                proof {
                    assert(log_models(kept@) =~= prior.push(self.log@[i as int]@));
                }
            }
            i += 1;
        }
        proof {
            assert(self.log@.take(n as int) =~= self.log@);
        }
        self.log = kept;
    }

    fn peer_texts(&self) -> (r: Vec<String>)
        ensures
            texts(r@) == peer_lines(self@.peers),
    {
        let mut lines: Vec<String> = Vec::new();
        let n: usize = self.global_state.entries.len();
        let mut i: usize = 0;
        while i < n
            invariant
                n == self.global_state.entries@.len(),
                0 <= i <= n,
                lines@.len() == i,
                forall|j: int| 0 <= j < i ==> (#[trigger] lines@[j])@ == peer_line(self@.peers[j]),
            decreases n - i,
        {
            let line: String = concat3(
                color_of(self.global_state.entries[i].state.ready),
                self.global_state.entries[i].name.as_str(),
                "{\\r}",
            );
            lines.push(line);
            i += 1;
        }
        proof {
            assert(texts(lines@) =~= peer_lines(self@.peers));
        }
        lines
    }

    fn log_texts(&self) -> (r: Vec<String>)
        ensures
            texts(r@) == log_lines(self@.log),
    {
        let mut lines: Vec<String> = Vec::new();
        let n: usize = self.log.len();
        let mut i: usize = 0;
        while i < n
            invariant
                n == self.log@.len(),
                0 <= i <= n,
                lines@.len() == i,
                forall|j: int|
                    0 <= j < i ==> (#[trigger] lines@[j])@ == log_line(self@.log[n - 1 - j]),
            decreases n - i,
        {
            let line: String = concat3("{\\fs40}", self.log[n - 1 - i].what.as_str(), "{\\r}");
            lines.push(line);
            i += 1;
        }
        proof {
            assert(texts(lines@) =~= log_lines(self@.log));
        }
        lines
    }

    /// The text of the status overlay: the local and the network
    /// readiness, one line for each peer, and the log, newest line first.
    pub fn osd_text(&self) -> (r: String)
        ensures
            r@ == self@.osd_text(),
    {
        let mut s: String = String::from_str("\\N\\N");
        s.append("ready: ");
        s.append(color_of(self.local_state.ready));
        s.append("you{\\r} ");
        s.append(color_of(self.network_ready));
        s.append("network{\\r}");
        s.append("\\N");
        let peers: String = join_with(&self.peer_texts(), "\\N");
        s.append(peers.as_str());
        s.append("\\N");
        let lines: String = join_with(&self.log_texts(), "\\N");
        s.append(lines.as_str());
        proof {
            assert(s@ =~= self@.osd_text());
        }
        s
    }

    /// Refreshes the overlay. Log lines of a second or older are dropped
    /// first; with no line left and playback running the overlay is
    /// cleared, else the status text is shown.
    pub fn display_osd(&mut self, now: Clock)
        ensures
            final(self)@ == old(self)@.osd_shown(now),
            final(self)@.log.len() <= old(self)@.log.len(),
            forall|i: int|
                0 <= i < final(self)@.log.len() ==> elapsed(
                    now.monotonic_ms,
                    (#[trigger] final(self)@.log[i]).when,
                ) < LOG_DISPLAY_MS,
    {
        self.drop_old_lines(now);
        proof {
            lemma_retained(old(self)@.log, now.monotonic_ms);
        }
        if self.log.len() == 0 && !self.local_state.paused {
            proof {
                reveal_strlit("");
                assert(""@ =~= Seq::<char>::empty());
            }
            self.emit(Output::Player(Request::osd_overlay("")));
        } else {
            let text: String = self.osd_text();
            self.emit(Output::Player(Request::osd_overlay(text.as_str())));
        }
    }
}

impl StateMachine {
    /// The local participant turns ready: a log line, a refreshed overlay,
    /// and the announcement. Whether playback starts is for the caller to
    /// decide.
    pub fn start_to_be_ready(&mut self, now: Clock)
        ensures
            final(self)@ == old(self)@.became_ready(now),
    {
        self.local_state.ready = true;
        self.push_log(now, String::from_str("you are ready"));
        self.display_osd(now);
        self.emit(Output::Network(Action::Ready));
    }

    /// The local participant turns not ready: the announcement, a log line
    /// with the reason, and a refreshed overlay.
    pub fn stop_being_ready(&mut self, now: Clock, reason: &str)
        ensures
            final(self)@ == old(self)@.became_unready(now, reason@),
    {
        self.local_state.ready = false;
        self.emit(Output::Network(Action::Unready));
        self.push_log(now, concat2("you not ready: ", reason));
        self.display_osd(now);
    }

    /// Starts playback if the player is paused: the seek on record is
    /// dropped, the player is asked to resume, a log line is written and the
    /// overlay refreshed. On a running player nothing happens.
    pub fn start_playback(&mut self, now: Clock)
        ensures
            final(self)@ == old(self)@.playback_started(now),
    {
        if self.local_state.paused {
            self.network_seek_target = None;
            self.local_state.paused = false;
            self.emit(Output::Player(Request::set_pause(false)));
            self.push_log(now, String::from_str("everyone is ready, go"));
            self.display_osd(now);
        }
    }

    /// Stops playback for a reason: a running player is asked to pause and
    /// the seek on record is dropped; a ready participant turns not ready; a
    /// log line is written and the overlay refreshed.
    pub fn stop_playback(&mut self, now: Clock, reason: &str)
        ensures
            final(self)@ == old(self)@.playback_stopped(now, reason@),
    {
        if !self.local_state.paused {
            self.local_state.paused = true;
            self.network_seek_target = None;
            self.emit(Output::Player(Request::set_pause(true)));
        }
        if self.local_state.ready {
            self.stop_being_ready(now, reason);
        }
        self.push_log(now, concat2("stopped playback: ", reason));
        self.display_osd(now);
    }

    /// Answers a resume that the rules forbid: the player is asked to pause
    /// and the local participant turns not ready.
    pub fn suppress_unpause(&mut self, now: Clock, reason: &str)
        ensures
            final(self)@ == old(self)@.unpause_suppressed(now, reason@),
    {
        self.emit(Output::Player(Request::set_pause(true)));
        self.stop_being_ready(now, reason);
    }

    /// Greets a peer on the overlay.
    pub fn on_other_join(&mut self, now: Clock, name: &str)
        ensures
            final(self)@ == old(self)@.other_joined(now, name@),
    {
        self.push_log(now, concat2("oh hi ", name));
        self.display_osd(now);
    }

    /// Where playback should be according to the newest remote seek, if
    /// one is on record.
    pub fn calculated_pos(&self, now: Clock) -> (r: Option<i64>)
        ensures
            r == self@.calculated_pos(now),
    {
        match self.network_seek_target {
            Some(target) => {
                if self.local_state.paused {
                    Some(target.1)
                } else {
                    let calc: i128 = target.1 as i128 + (now.wall_ms as i128 - target.0 as i128);
                    if calc > i64::MAX as i128 {
                        Some(i64::MAX)
                    } else if calc < i64::MIN as i128 {
                        Some(i64::MIN)
                    } else {
                        Some(calc as i64)
                    }
                }
            },
            None => None,
        }
    }

    fn off_target(&self, now: Clock) -> (r: bool)
        ensures
            r == self@.off_target(now),
    {
        match self.calculated_pos(now) {
            Some(calc) => span(calc, self.local_state.position) > SEEK_IGNORE_THRES_MS,
            None => true,
        }
    }

    /// After the player restarted playback: if no remote seek is on record,
    /// or the local position is farther than the threshold from where the
    /// seek on record expects it, the next reported position is announced as
    /// a seek.
    pub fn seeking_target_check(&mut self, now: Clock)
        ensures
            final(self)@ == old(self)@.seek_target_checked(now),
    {
        if self.off_target(now) {
            self.send_remote_seek_on_next_pos = true;
        }
    }

    fn find_peer(&self, name: &String) -> (r: Option<usize>)
        ensures
            match r {
                Some(i) => i < self@.peers.len() && self@.peers[i as int].name == name@,
                None => !known(self@.peers, name@),
            },
    {
        let n: usize = self.global_state.entries.len();
        let mut i: usize = 0;
        while i < n
            invariant
                n == self.global_state.entries@.len(),
                0 <= i <= n,
                forall|j: int| 0 <= j < i ==> (#[trigger] self@.peers[j]).name != name@,
            decreases n - i,
        {
            if self.global_state.entries[i].name == *name {
                return Some(i);
            }
            i += 1;
        }
        None
    }

    fn change_peer(&mut self, idx: usize, c: PeerChange)
        requires
            idx < old(self)@.peers.len(),
        ensures
            final(self)@ == old(self)@.peer_changed(old(self)@.peers[idx as int].name, c),
    {
        let mut table: PeerTable = PeerTable::new();
        core::mem::swap(&mut self.global_state, &mut table);
        self.global_state = table.with_change(idx, c);
    }

    fn everyone_ready(&self) -> (r: bool)
        ensures
            r == all_ready(self@.peers),
    {
        let n: usize = self.global_state.entries.len();
        let mut i: usize = 0;
        while i < n
            invariant
                n == self.global_state.entries@.len(),
                0 <= i <= n,
                forall|j: int| 0 <= j < i ==> (#[trigger] self@.peers[j]).state.ready,
            decreases n - i,
        {
            if !self.global_state.entries[i].state.ready {
                assert(!self@.peers[i as int].state.ready);
                return false;
            }
            i += 1;
        }
        n > 0
    }

    fn farthest_peer(&self) -> (r: usize)
        requires
            self@.peers.len() > 0,
        ensures
            r == farthest(self@.peers, self@.local.position),
            r < self@.peers.len(),
    {
        let n: usize = self.global_state.entries.len();
        let mut best: usize = 0;
        let mut i: usize = 1;
        proof {
            assert(farthest(self@.peers.take(1), self@.local.position) == 0);
        }
        while i < n
            invariant
                n == self.global_state.entries@.len(),
                1 <= i <= n,
                best < i,
                best == farthest(self@.peers.take(i as int), self@.local.position),
            decreases n - i,
        {
            proof {
                assert(self@.peers.take(i + 1).drop_last() =~= self@.peers.take(i as int));
                assert(self@.peers.take(i + 1).last() == self@.peers[i as int]);
                assert(self@.peers.take(i + 1)[best as int] == self@.peers[best as int]);
            }
            if span(self.global_state.entries[i].state.position, self.local_state.position) >= span(
                self.global_state.entries[best].state.position,
                self.local_state.position,
            ) {
                best = i;
            }
            i += 1;
        }
        proof {
            assert(self@.peers.take(n as int) =~= self@.peers);
        }
        best
    }

    fn recent_network_seek(&self, now: Clock) -> (r: bool)
        ensures
            r == self@.recent_network_seek(now),
    {
        match self.network_seek_target {
            Some(target) => (now.wall_ms as i128 - target.0 as i128)
                <= SKIP_DESYNC_AFTER_SEEK_MS as i128,
            None => false,
        }
    }

    fn desync_checked(&self, now: Clock) -> (r: bool)
        ensures
            r == self@.desync_checked(now),
    {
        let since: u64 = if now.monotonic_ms >= self.last_seekrelated_event {
            now.monotonic_ms - self.last_seekrelated_event
        } else {
            0
        };
        !self.local_state.paused && since > SKIP_DESYNC_AFTER_SEEK_MS && !self.recent_network_seek(
            now,
        )
    }

    fn heartbeat(&mut self, now: Clock)
        ensures
            final(self)@ == old(self)@.heartbeat(now),
    {
        self.emit(Output::Network(Action::Position { pos: self.local_state.position }));
        if self.desync_checked(now) && self.global_state.entries.len() > 0 {
            let k: usize = self.farthest_peer();
            let d: u64 = span(self.global_state.entries[k].state.position, self.local_state.position);
            if d > MAX_DESYNC_MS {
                let mut reason: String = self.global_state.entries[k].name.clone();
                reason.append(" is out of sync by ");
                reason.append(decimal_unsigned(d).as_str());
                reason.append(", stopping");
                self.stop_playback(now, reason.as_str());
            }
        }
        self.display_osd(now);
    }
}

impl StateMachine {
    fn player_event(&mut self, event: mpv::Event, now: Clock)
        ensures
            final(self)@ == old(self)@.player_event(event@, now),
    {
        match event {
            mpv::Event::SuccessResponse { .. } => {},
            mpv::Event::ErrorResponse { .. } => {},
            mpv::Event::Seek => {
                self.last_seekrelated_event = now.monotonic_ms;
            },
            mpv::Event::BoolPropertyChange { property, value } => match property {
                BoolProperty::Seeking => {
                    self.local_state.seeking = value;
                    self.last_seekrelated_event = now.monotonic_ms;
                },
            },
            mpv::Event::FloatPropertyChange { property, value } => match property {
                FloatProperty::TimePos => {
                    self.local_state.position = value;
                    if self.send_remote_seek_on_next_pos {
                        let pos: i64 = if value >= 0 {
                            value
                        } else {
                            0
                        };
                        self.send_remote_seek_on_next_pos = false;
                        self.emit(Output::Network(Action::Seek { pos }));
                    }
                },
                FloatProperty::Speed => {
                    self.local_state.speed = value;
                    self.emit(Output::Network(Action::Speed { speed: value }));
                },
            },
            mpv::Event::ClientMessage { id } => {
                if same_text(&id, "ready_pressed") {
                    if self.local_state.ready {
                        self.stop_being_ready(now, "local unready");
                    } else {
                        self.start_to_be_ready(now);
                        if self.network_ready {
                            self.start_playback(now);
                        }
                    }
                }
            },
            mpv::Event::Event { event } => {
                if same_text(&event, "pause") {
                    self.local_state.paused = true;
                    self.network_seek_target = None;
                    if self.local_state.ready {
                        self.stop_being_ready(now, "local pause");
                    }
                } else if same_text(&event, "unpause") {
                    self.local_state.paused = false;
                    self.network_seek_target = None;
                    if !self.local_state.ready {
                        self.suppress_unpause(now, "not ready");
                    }
                    if !self.network_ready {
                        self.suppress_unpause(now, "network is not ready");
                    }
                } else if same_text(&event, "playback-restart") {
                    self.seeking_target_check(now);
                }
            },
        }
    }

    fn meet(&mut self, from: &String, now: Clock) -> (idx: usize)
        ensures
            final(self)@ == old(self)@.met(now, from@),
            idx < final(self)@.peers.len(),
            final(self)@.peers[idx as int].name == from@,
    {
        match self.find_peer(from) {
            Some(i) => i,
            None => {
                let i: usize = self.global_state.entries.len();
                let mut table: PeerTable = PeerTable::new();
                core::mem::swap(&mut self.global_state, &mut table);
                self.global_state = table.with_new(from.clone());
                self.on_other_join(now, from.as_str());
                i
            },
        }
    }

    fn remote_seek(&mut self, idx: usize, ts: u64, pos: i64, now: Clock)
        requires
            idx < old(self)@.peers.len(),
        ensures
            final(self)@ == old(self)@.remote_seek(now, old(self)@.peers[idx as int].name, ts, pos),
    {
        self.last_seekrelated_event = now.monotonic_ms;
        self.change_peer(idx, PeerChange::Position(pos));
        let target: (u64, i64) = match self.network_seek_target {
            Some(prior) => if prior.0 < ts {
                (ts, pos)
            } else {
                prior
            },
            None => (ts, pos),
        };
        self.network_seek_target = Some(target);
        if self.off_target(now) {
            match self.calculated_pos(now) {
                Some(calc) => {
                    self.emit(Output::Player(Request::seek(calc)));
                },
                None => {},
            }
        }
    }

    fn network_event(&mut self, msg: proto::Message, now: Clock)
        ensures
            final(self)@ == old(self)@.network_event(msg@, now),
    {
        let from: String = msg.user_id;
        let ts: u64 = msg.ts;
        let idx: usize = self.meet(&from, now);
        match msg.action {
            Action::Hello => {
                self.change_peer(idx, PeerChange::Ready(false));
                self.network_ready = false;
                self.on_other_join(now, from.as_str());
                let reason: String = concat2(from.as_str(), " joined");
                self.stop_playback(now, reason.as_str());
            },
            Action::Ready => {
                self.change_peer(idx, PeerChange::Ready(true));
                self.network_ready = self.everyone_ready();
                if self.local_state.ready && self.network_ready {
                    self.start_playback(now);
                }
                self.push_log(now, concat2(from.as_str(), " is ready"));
                self.display_osd(now);
            },
            Action::Unready => {
                self.change_peer(idx, PeerChange::Ready(false));
                self.network_ready = false;
                if !self.local_state.paused {
                    let reason: String = concat2(from.as_str(), " is not ready");
                    self.stop_playback(now, reason.as_str());
                }
                self.push_log(now, concat2(from.as_str(), " is not ready"));
                self.display_osd(now);
            },
            Action::Seek { pos } => {
                self.remote_seek(idx, ts, pos, now);
            },
            Action::Position { pos } => {
                self.change_peer(idx, PeerChange::Position(pos));
            },
            Action::Speed { speed } => {
                self.change_peer(idx, PeerChange::Speed(speed));
                if span(self.local_state.speed, speed) > SPEED_TOLERANCE {
                    self.emit(Output::Player(Request::speed(speed)));
                    let what: String = concat3(
                        from.as_str(),
                        " changed speed to ",
                        decimal(speed).as_str(),
                    );
                    self.push_log(now, what);
                    self.display_osd(now);
                }
            },
        }
    }

    /// Handles one event. `now` holds the clocks read when the event
    /// arrived. What is to be sent because of it is queued, in order, and
    /// handed out by `take_outputs`.
    pub fn process_event(&mut self, event: Event, now: Clock)
        ensures
            final(self)@ == old(self)@.step(event@, now),
            unique_names(final(self)@.peers),
    {
        match event {
            Event::KeepAlive => {
                self.heartbeat(now);
            },
            Event::Mpv(e) => {
                self.player_event(e, now);
            },
            Event::Network(msg) => {
                self.network_event(msg, now);
            },
        }
        proof {
            use_type_invariant(&self.global_state);
        }
    }

    /// Hands out what was queued since the last call, oldest first, and
    /// leaves the queue empty.
    pub fn take_outputs(&mut self) -> (out: Vec<Output>)
        ensures
            emitted_models(out@) == old(self)@.outbox,
            out@.len() == old(self)@.outbox.len(),
            forall|i: int| 0 <= i < out@.len() ==> (#[trigger] out@[i])@ == old(self)@.outbox[i],
            final(self)@ == (Model { outbox: Seq::<Emitted>::empty(), ..old(self)@ }),
    {
        let mut out: Vec<Output> = Vec::new();
        core::mem::swap(&mut self.outbox, &mut out);
        proof {
            assert(emitted_models(self.outbox@) =~= Seq::<Emitted>::empty());
            assert forall|i: int| 0 <= i < out@.len() implies (#[trigger] out@[i])@ == old(
                self,
            )@.outbox[i] by {
                assert(emitted_models(out@)[i] == out@[i]@);
            }
        }
        out
    }
}

impl StateMachine {
    /// Whether at least one peer is known and all known peers are ready,
    /// as of the last message that carried readiness.
    pub fn network_ready(&self) -> (r: bool)
        ensures
            r == self@.network_ready,
    {
        self.network_ready
    }

    /// The state of the local player as far as it was reported.
    pub fn local_state(&self) -> (r: State)
        ensures
            r == self@.local,
    {
        self.local_state
    }

    /// The newest remote seek on record: the sender's wall clock and the
    /// position.
    pub fn seek_target(&self) -> (r: Option<(u64, i64)>)
        ensures
            r == self@.seek_target,
    {
        self.network_seek_target
    }

    /// Whether the next position report is announced as a seek.
    pub fn pending_seek(&self) -> (r: bool)
        ensures
            r == self@.pending_seek,
    {
        self.send_remote_seek_on_next_pos
    }

    /// How many peers are known.
    pub fn peer_count(&self) -> (r: usize)
        ensures
            r == self@.peers.len(),
    {
        self.global_state.entries.len()
    }

    /// How many lines the on-screen log holds.
    pub fn log_len(&self) -> (r: usize)
        ensures
            r == self@.log.len(),
    {
        self.log.len()
    }

    /// What is known of the peer with the given user id, if it was heard.
    pub fn peer_state(&self, name: &str) -> (r: Option<State>)
        ensures
            match r {
                Some(state) => exists|i: int|
                    0 <= i < self@.peers.len() && (#[trigger] self@.peers[i]).name == name@
                        && self@.peers[i].state == state,
                None => !known(self@.peers, name@),
            },
    {
        let wanted: String = String::from_str(name);
        match self.find_peer(&wanted) {
            Some(i) => {
                assert(self@.peers[i as int].state == self.global_state.entries@[i as int].state);
                Some(self.global_state.entries[i].state)
            },
            None => None,
        }
    }
}

} // verus!
