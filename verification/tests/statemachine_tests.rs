use synco::model::{Clock, State};
use synco::mpv;
use synco::mpv::{FloatProperty, Property, Request, RequestType, Value};
use synco::proto::{Action, Message};
use synco::statemachine::{Event, Output, StateMachine};

fn at(monotonic_ms: u64, wall_ms: u64) -> Clock {
    Clock { monotonic_ms, wall_ms }
}

fn ready_pressed() -> Event {
    Event::Mpv(mpv::Event::ClientMessage { id: "ready_pressed".to_string() })
}

fn named(name: &str) -> Event {
    Event::Mpv(mpv::Event::Event { event: name.to_string() })
}

fn time_pos(value: i64) -> Event {
    Event::Mpv(mpv::Event::FloatPropertyChange { property: FloatProperty::TimePos, value })
}

fn from_peer(user: &str, ts: u64, action: Action) -> Event {
    Event::Network(Message { user_id: user.to_string(), ts, action })
}

fn player(outputs: &[Output]) -> Vec<Request> {
    let mut v = Vec::new();
    for o in outputs {
        if let Output::Player(r) = o {
            v.push(r.clone());
        }
    }
    v
}

fn network(outputs: &[Output]) -> Vec<Action> {
    let mut v = Vec::new();
    for o in outputs {
        if let Output::Network(a) = o {
            v.push(*a);
        }
    }
    v
}

fn is_overlay(r: &Request) -> bool {
    r.command == RequestType::OsdOverlay
}

fn overlay_text(r: &Request) -> String {
    match &r.v2 {
        Value::Text(t) => t.clone(),
        _ => panic!("an overlay carries text"),
    }
}

fn without_overlays(reqs: &[Request]) -> Vec<Request> {
    reqs.iter().filter(|r| !is_overlay(r)).cloned().collect()
}

/// A machine that plays: peer B is ready, the local participant is ready,
/// playback was started at the given time.
fn playing(now: Clock) -> StateMachine {
    let mut sm = StateMachine::new(now);
    sm.process_event(from_peer("B", now.wall_ms, Action::Ready), now);
    sm.process_event(ready_pressed(), now);
    sm.take_outputs();
    assert!(!sm.local_state().paused);
    assert!(sm.local_state().ready);
    assert!(sm.network_ready());
    sm
}

#[test]
fn new_machine_is_paused_and_alone() {
    let sm = StateMachine::new(at(5, 7));
    assert_eq!(
        sm.local_state(),
        State { position: 0, speed: 0, ready: false, paused: true, seeking: false }
    );
    assert!(!sm.network_ready());
    assert_eq!(sm.peer_count(), 0);
    assert_eq!(sm.log_len(), 0);
    assert_eq!(sm.seek_target(), None);
    assert!(!sm.pending_seek());
}

#[test]
fn solo_ready_press() {
    let now = at(0, 1_000);
    let mut sm = StateMachine::new(now);
    sm.process_event(ready_pressed(), now);
    let out = sm.take_outputs();
    assert_eq!(network(&out), vec![Action::Ready]);
    let reqs = player(&out);
    assert_eq!(reqs.len(), 1);
    assert!(is_overlay(&reqs[0]));
    assert!(!reqs.contains(&Request::set_pause(false)));
    assert!(!sm.network_ready());
    assert!(sm.local_state().ready);
    assert!(sm.local_state().paused);
}

#[test]
fn solo_presses_never_resume() {
    let mut sm = StateMachine::new(at(0, 0));
    for i in 0..7u64 {
        sm.process_event(ready_pressed(), at(i * 10, i * 10));
        assert!(!sm.network_ready());
    }
    let out = sm.take_outputs();
    assert!(!player(&out).contains(&Request::set_pause(false)));
    assert!(sm.local_state().paused);
    assert_eq!(
        network(&out),
        vec![
            Action::Ready,
            Action::Unready,
            Action::Ready,
            Action::Unready,
            Action::Ready,
            Action::Unready,
            Action::Ready
        ]
    );
}

#[test]
fn two_peer_ready_handshake() {
    let now = at(0, 1_000);
    let mut sm = StateMachine::new(now);
    sm.process_event(from_peer("B", 1_000, Action::Ready), now);
    assert!(sm.network_ready());
    sm.take_outputs();
    sm.process_event(ready_pressed(), now);
    let out = sm.take_outputs();
    assert_eq!(network(&out), vec![Action::Ready]);
    let reqs = player(&out);
    assert_eq!(reqs.len(), 3);
    assert!(is_overlay(&reqs[0]));
    assert_eq!(reqs[1], Request::set_pause(false));
    assert!(is_overlay(&reqs[2]));
    assert!(overlay_text(&reqs[2]).contains("everyone is ready, go"));
    assert!(!sm.local_state().paused);
}

#[test]
fn ready_from_second_peer_starts_playback_when_local_is_ready() {
    let now = at(0, 0);
    let mut sm = StateMachine::new(now);
    sm.process_event(ready_pressed(), now);
    sm.take_outputs();
    sm.process_event(from_peer("B", 0, Action::Ready), now);
    let out = sm.take_outputs();
    assert_eq!(without_overlays(&player(&out)), vec![Request::set_pause(false)]);
    assert!(sm.network_ready());
    assert!(!sm.local_state().paused);
}

#[test]
fn remote_seek_echo_suppression() {
    let start = at(0, 50_000);
    let mut sm = playing(start);
    sm.process_event(time_pos(10_000), start);
    assert!(sm.take_outputs().is_empty());
    let now = at(100, 50_100);
    sm.process_event(from_peer("B", 50_100, Action::Seek { pos: 30_000 }), now);
    let out = sm.take_outputs();
    assert_eq!(player(&out), vec![Request::seek(30_000)]);
    assert!(network(&out).is_empty());
    assert_eq!(sm.seek_target(), Some((50_100, 30_000)));
    sm.process_event(time_pos(30_000), at(140, 50_140));
    sm.process_event(named("playback-restart"), at(150, 50_150));
    assert!(!sm.pending_seek());
    sm.process_event(time_pos(30_000), at(160, 50_160));
    let out = sm.take_outputs();
    assert!(out.is_empty());
    assert_eq!(sm.local_state().position, 30_000);
}

#[test]
fn restart_reported_before_the_new_position_is_taken_for_a_scrub() {
    let start = at(0, 50_000);
    let mut sm = playing(start);
    sm.process_event(time_pos(10_000), start);
    sm.process_event(from_peer("B", 50_100, Action::Seek { pos: 30_000 }), at(100, 50_100));
    sm.take_outputs();
    sm.process_event(named("playback-restart"), at(150, 50_150));
    assert!(sm.pending_seek());
    sm.process_event(time_pos(30_000), at(160, 50_160));
    assert_eq!(network(&sm.take_outputs()), vec![Action::Seek { pos: 30_000 }]);
}

#[test]
fn remote_seek_is_moved_on_by_the_time_since_it_was_sent() {
    let start = at(0, 50_000);
    let mut sm = playing(start);
    sm.process_event(from_peer("B", 48_000, Action::Seek { pos: 30_000 }), start);
    assert_eq!(player(&sm.take_outputs()), vec![Request::seek(32_000)]);
    assert_eq!(sm.calculated_pos(at(0, 50_250)), Some(32_250));
}

#[test]
fn remote_seek_while_paused_is_not_moved_on() {
    let now = at(0, 50_000);
    let mut sm = StateMachine::new(now);
    sm.process_event(from_peer("B", 40_000, Action::Seek { pos: 30_000 }), now);
    let out = sm.take_outputs();
    assert_eq!(without_overlays(&player(&out)), vec![Request::seek(30_000)]);
    assert_eq!(sm.calculated_pos(at(9, 90_000)), Some(30_000));
}

#[test]
fn remote_seek_close_to_local_position_is_not_applied() {
    let start = at(0, 50_000);
    let mut sm = playing(start);
    sm.process_event(time_pos(29_500), start);
    sm.take_outputs();
    sm.process_event(from_peer("B", 50_000, Action::Seek { pos: 30_000 }), start);
    assert!(sm.take_outputs().is_empty());
    assert_eq!(sm.seek_target(), Some((50_000, 30_000)));
    sm.process_event(time_pos(29_499), start);
    sm.process_event(from_peer("B", 50_000, Action::Seek { pos: 30_000 }), start);
    assert_eq!(player(&sm.take_outputs()), vec![Request::seek(30_000)]);
}

#[test]
fn older_remote_seek_does_not_replace_a_newer_one() {
    let start = at(0, 50_000);
    let mut sm = playing(start);
    sm.process_event(from_peer("B", 49_000, Action::Seek { pos: 30_000 }), start);
    sm.process_event(from_peer("C", 48_000, Action::Seek { pos: 90_000 }), start);
    assert_eq!(sm.seek_target(), Some((49_000, 30_000)));
    assert_eq!(sm.peer_state("C").map(|s| s.position), Some(90_000));
    sm.process_event(from_peer("C", 49_000, Action::Seek { pos: 70_000 }), start);
    assert_eq!(sm.seek_target(), Some((49_000, 30_000)));
    sm.process_event(from_peer("C", 49_001, Action::Seek { pos: 70_000 }), start);
    assert_eq!(sm.seek_target(), Some((49_001, 70_000)));
}

#[test]
fn remote_seek_stamped_in_the_future_moves_the_target_back() {
    let start = at(0, 50_000);
    let mut sm = playing(start);
    sm.process_event(from_peer("B", 51_000, Action::Seek { pos: 30_000 }), start);
    assert_eq!(player(&sm.take_outputs()), vec![Request::seek(29_000)]);
}

#[test]
fn local_scrub_is_announced() {
    let start = at(0, 50_000);
    let mut sm = playing(start);
    sm.process_event(named("playback-restart"), at(10, 50_010));
    assert!(sm.pending_seek());
    sm.process_event(time_pos(75_200), at(20, 50_020));
    let out = sm.take_outputs();
    assert_eq!(network(&out), vec![Action::Seek { pos: 75_200 }]);
    assert!(player(&out).is_empty());
    assert!(!sm.pending_seek());
    sm.process_event(time_pos(75_700), at(520, 50_520));
    assert!(sm.take_outputs().is_empty());
}

#[test]
fn announced_seek_is_never_negative() {
    let start = at(0, 50_000);
    let mut sm = playing(start);
    sm.process_event(named("playback-restart"), start);
    sm.process_event(time_pos(-40), start);
    assert_eq!(network(&sm.take_outputs()), vec![Action::Seek { pos: 0 }]);
    assert_eq!(sm.local_state().position, -40);
}

#[test]
fn scrub_far_from_the_remote_target_is_announced() {
    let start = at(0, 50_000);
    let mut sm = playing(start);
    sm.process_event(from_peer("B", 50_000, Action::Seek { pos: 30_000 }), start);
    sm.process_event(time_pos(30_000), start);
    sm.take_outputs();
    sm.process_event(time_pos(31_000), at(100, 50_100));
    sm.process_event(named("playback-restart"), at(100, 50_100));
    assert!(sm.pending_seek());
    sm.process_event(time_pos(31_000), at(110, 50_110));
    assert_eq!(network(&sm.take_outputs()), vec![Action::Seek { pos: 31_000 }]);
}

#[test]
fn desync_stop() {
    let start = at(0, 50_000);
    let mut sm = playing(start);
    sm.process_event(time_pos(100_000), start);
    sm.process_event(from_peer("B", 50_000, Action::Position { pos: 103_000 }), start);
    assert!(sm.take_outputs().is_empty());
    sm.process_event(Event::KeepAlive, at(2_001, 52_001));
    let out = sm.take_outputs();
    assert_eq!(out[0], Output::Network(Action::Position { pos: 100_000 }));
    assert_eq!(out[1], Output::Player(Request::set_pause(true)));
    assert_eq!(network(&out), vec![Action::Position { pos: 100_000 }, Action::Unready]);
    let reqs = player(&out);
    assert_eq!(without_overlays(&reqs), vec![Request::set_pause(true)]);
    let last = overlay_text(reqs.last().unwrap());
    assert!(last.contains("stopped playback: B is out of sync by 3, stopping"));
    assert!(last.contains("you not ready: B is out of sync by 3, stopping"));
    assert!(sm.local_state().paused);
    assert!(!sm.local_state().ready);
}

#[test]
fn desync_of_exactly_the_limit_is_tolerated() {
    let start = at(0, 50_000);
    let mut sm = playing(start);
    sm.process_event(time_pos(100_000), start);
    sm.process_event(from_peer("B", 50_000, Action::Position { pos: 98_500 }), start);
    sm.take_outputs();
    sm.process_event(Event::KeepAlive, at(2_001, 52_001));
    let out = sm.take_outputs();
    assert_eq!(network(&out), vec![Action::Position { pos: 100_000 }]);
    assert_eq!(player(&out), vec![Request::osd_overlay("")]);
    assert!(!sm.local_state().paused);
}

#[test]
fn desync_names_the_farthest_peer_and_a_fraction() {
    let start = at(0, 50_000);
    let mut sm = playing(start);
    sm.process_event(from_peer("C", 50_000, Action::Ready), start);
    sm.process_event(time_pos(100_000), start);
    sm.process_event(from_peer("B", 50_000, Action::Position { pos: 102_000 }), start);
    sm.process_event(from_peer("C", 50_000, Action::Position { pos: 97_750 }), start);
    sm.take_outputs();
    sm.process_event(Event::KeepAlive, at(2_500, 52_500));
    let reqs = player(&sm.take_outputs());
    let last = overlay_text(reqs.last().unwrap());
    assert!(last.contains("C is out of sync by 2.25, stopping"));
}

#[test]
fn keepalive_soon_after_a_seek_event_skips_the_desync_check() {
    let start = at(0, 50_000);
    let mut sm = playing(start);
    sm.process_event(time_pos(100_000), start);
    sm.process_event(from_peer("B", 50_000, Action::Position { pos: 103_000 }), start);
    sm.process_event(Event::Mpv(mpv::Event::Seek), at(1_000, 51_000));
    sm.take_outputs();
    sm.process_event(Event::KeepAlive, at(3_000, 53_000));
    let out = sm.take_outputs();
    assert_eq!(network(&out), vec![Action::Position { pos: 100_000 }]);
    assert!(without_overlays(&player(&out)).is_empty());
    assert!(!sm.local_state().paused);
    sm.process_event(Event::KeepAlive, at(3_001, 53_001));
    assert!(sm.local_state().paused);
}

#[test]
fn keepalive_soon_after_a_remote_seek_skips_the_desync_check() {
    let start = at(0, 50_000);
    let mut sm = playing(start);
    sm.process_event(from_peer("B", 50_000, Action::Seek { pos: 103_000 }), start);
    sm.process_event(time_pos(100_000), start);
    sm.take_outputs();
    sm.process_event(Event::KeepAlive, at(5_000, 52_000));
    assert!(!sm.local_state().paused);
    sm.process_event(Event::KeepAlive, at(5_000, 52_001));
    assert!(sm.local_state().paused);
}

#[test]
fn keepalive_while_paused_reports_and_refreshes_only() {
    let now = at(0, 0);
    let mut sm = StateMachine::new(now);
    sm.process_event(from_peer("B", 0, Action::Position { pos: 500_000 }), now);
    sm.take_outputs();
    sm.process_event(Event::KeepAlive, at(10_000, 10_000));
    let out = sm.take_outputs();
    assert_eq!(out.len(), 2);
    assert_eq!(out[0], Output::Network(Action::Position { pos: 0 }));
    assert_eq!(
        out[1],
        Output::Player(Request::osd_overlay(
            "\\N\\Nready: {\\c&HFF&}you{\\r} {\\c&HFF&}network{\\r}\\N{\\c&HFF&}B{\\r}\\N"
        ))
    );
}

#[test]
fn remote_unready_pauses_us() {
    let start = at(0, 50_000);
    let mut sm = playing(start);
    sm.process_event(from_peer("B", 50_100, Action::Unready), at(100, 50_100));
    let out = sm.take_outputs();
    assert!(!sm.network_ready());
    assert_eq!(without_overlays(&player(&out)), vec![Request::set_pause(true)]);
    assert_eq!(network(&out), vec![Action::Unready]);
    assert!(is_overlay(player(&out).last().unwrap()));
    assert!(sm.local_state().paused);
    assert!(!sm.local_state().ready);
    assert_eq!(sm.peer_state("B").map(|s| s.ready), Some(false));
}

#[test]
fn remote_position_changes_the_peer_view_only() {
    let start = at(0, 50_000);
    let mut sm = playing(start);
    let before = sm.local_state();
    sm.process_event(from_peer("B", 50_000, Action::Position { pos: 4_200 }), at(9, 50_009));
    assert!(sm.take_outputs().is_empty());
    assert_eq!(sm.local_state(), before);
    assert!(sm.network_ready());
    assert_eq!(sm.seek_target(), None);
    assert_eq!(
        sm.peer_state("B"),
        Some(State { position: 4_200, speed: 0, ready: true, paused: false, seeking: false })
    );
}

#[test]
fn first_message_of_a_peer_is_greeted() {
    let now = at(0, 0);
    let mut sm = StateMachine::new(now);
    sm.process_event(from_peer("zed", 0, Action::Position { pos: 1 }), now);
    let out = sm.take_outputs();
    assert_eq!(
        out,
        vec![Output::Player(Request::osd_overlay(
            "\\N\\Nready: {\\c&HFF&}you{\\r} {\\c&HFF&}network{\\r}\\N{\\c&HFF&}zed{\\r}\\N{\\fs40}oh hi zed{\\r}"
        ))]
    );
    assert_eq!(sm.peer_count(), 1);
    sm.process_event(from_peer("zed", 0, Action::Position { pos: 2 }), now);
    assert!(sm.take_outputs().is_empty());
    assert_eq!(sm.peer_count(), 1);
}

#[test]
fn hello_resets_readiness_and_stops_playback() {
    let start = at(0, 50_000);
    let mut sm = playing(start);
    sm.process_event(from_peer("C", 50_000, Action::Hello), start);
    let out = sm.take_outputs();
    assert!(!sm.network_ready());
    assert_eq!(without_overlays(&player(&out)), vec![Request::set_pause(true)]);
    assert_eq!(network(&out), vec![Action::Unready]);
    let last = overlay_text(player(&out).last().unwrap());
    assert!(last.contains("stopped playback: C joined"));
    assert_eq!(last.matches("oh hi C").count(), 2);
    assert_eq!(sm.peer_state("C").map(|s| s.ready), Some(false));
    assert_eq!(sm.peer_state("B").map(|s| s.ready), Some(true));
}

#[test]
fn network_ready_follows_the_peers() {
    let now = at(0, 0);
    let mut sm = StateMachine::new(now);
    assert!(!sm.network_ready());
    sm.process_event(from_peer("B", 0, Action::Ready), now);
    assert!(sm.network_ready());
    sm.process_event(from_peer("C", 0, Action::Unready), now);
    assert!(!sm.network_ready());
    sm.process_event(from_peer("B", 0, Action::Ready), now);
    assert!(!sm.network_ready());
    sm.process_event(from_peer("C", 0, Action::Ready), now);
    assert!(sm.network_ready());
    sm.process_event(from_peer("B", 0, Action::Hello), now);
    assert!(!sm.network_ready());
}

#[test]
fn newcomer_without_readiness_leaves_the_network_flag() {
    let now = at(0, 0);
    let mut sm = StateMachine::new(now);
    sm.process_event(from_peer("B", 0, Action::Ready), now);
    sm.process_event(from_peer("C", 0, Action::Position { pos: 3 }), now);
    assert!(sm.network_ready());
    assert_eq!(sm.peer_state("C").map(|s| s.ready), Some(false));
}

#[test]
fn remote_speed_is_mirrored_beyond_the_tolerance() {
    let now = at(0, 0);
    let mut sm = StateMachine::new(now);
    sm.process_event(from_peer("B", 0, Action::Position { pos: 0 }), now);
    sm.process_event(
        Event::Mpv(mpv::Event::FloatPropertyChange { property: FloatProperty::Speed, value: 1_000 }),
        now,
    );
    assert_eq!(network(&sm.take_outputs()), vec![Action::Speed { speed: 1_000 }]);
    sm.process_event(from_peer("B", 0, Action::Speed { speed: 1_100 }), now);
    assert!(sm.take_outputs().is_empty());
    assert_eq!(sm.peer_state("B").map(|s| s.speed), Some(1_100));
    sm.process_event(from_peer("B", 0, Action::Speed { speed: 1_250 }), now);
    let out = sm.take_outputs();
    assert_eq!(without_overlays(&player(&out)), vec![Request::speed(1_250)]);
    let text = overlay_text(player(&out).last().unwrap());
    assert!(text.contains("{\\fs40}B changed speed to 1.25{\\r}"));
}

#[test]
fn local_pause_withdraws_readiness() {
    let start = at(0, 50_000);
    let mut sm = playing(start);
    sm.process_event(from_peer("B", 50_000, Action::Seek { pos: 0 }), start);
    sm.take_outputs();
    sm.process_event(named("pause"), at(5, 50_005));
    let out = sm.take_outputs();
    assert_eq!(network(&out), vec![Action::Unready]);
    assert!(without_overlays(&player(&out)).is_empty());
    assert!(overlay_text(&player(&out)[0]).contains("you not ready: local pause"));
    assert!(sm.local_state().paused);
    assert!(!sm.local_state().ready);
    assert_eq!(sm.seek_target(), None);
}

#[test]
fn unpause_while_nobody_is_ready_is_suppressed_twice() {
    let now = at(0, 0);
    let mut sm = StateMachine::new(now);
    sm.process_event(named("unpause"), now);
    let out = sm.take_outputs();
    assert_eq!(
        without_overlays(&player(&out)),
        vec![Request::set_pause(true), Request::set_pause(true)]
    );
    assert_eq!(network(&out), vec![Action::Unready, Action::Unready]);
    let last = overlay_text(player(&out).last().unwrap());
    assert!(last.contains("you not ready: network is not ready"));
    assert!(last.contains("you not ready: not ready"));
    assert!(!sm.local_state().paused);
}

#[test]
fn unpause_while_everyone_is_ready_is_accepted() {
    let start = at(0, 50_000);
    let mut sm = playing(start);
    sm.process_event(named("unpause"), start);
    assert!(sm.take_outputs().is_empty());
    assert!(sm.local_state().ready);
}

#[test]
fn ignored_player_events_change_nothing() {
    let now = at(0, 0);
    let mut sm = StateMachine::new(now);
    sm.process_event(Event::Mpv(mpv::Event::SuccessResponse { request_id: 3 }), now);
    sm.process_event(
        Event::Mpv(mpv::Event::ErrorResponse { request_id: 3, error: "bad".to_string() }),
        now,
    );
    sm.process_event(Event::Mpv(mpv::Event::ClientMessage { id: "other".to_string() }), now);
    sm.process_event(named("idle"), now);
    assert!(sm.take_outputs().is_empty());
    assert_eq!(
        sm.local_state(),
        State { position: 0, speed: 0, ready: false, paused: true, seeking: false }
    );
}

#[test]
fn seeking_flag_is_recorded() {
    let now = at(0, 0);
    let mut sm = StateMachine::new(now);
    sm.process_event(
        Event::Mpv(mpv::Event::BoolPropertyChange {
            property: mpv::BoolProperty::Seeking,
            value: true,
        }),
        now,
    );
    assert!(sm.local_state().seeking);
    assert!(sm.take_outputs().is_empty());
}

#[test]
fn log_lines_leave_the_overlay_after_a_second() {
    let now = at(0, 0);
    let mut sm = StateMachine::new(now);
    sm.process_event(ready_pressed(), now);
    assert_eq!(sm.log_len(), 1);
    sm.display_osd(at(999, 999));
    assert_eq!(sm.log_len(), 1);
    sm.display_osd(at(1_000, 1_000));
    assert_eq!(sm.log_len(), 0);
    let out = sm.take_outputs();
    assert_eq!(
        out.last(),
        Some(&Output::Player(Request::osd_overlay(
            "\\N\\Nready: {\\c&HFF00&}you{\\r} {\\c&HFF&}network{\\r}\\N\\N"
        )))
    );
}

#[test]
fn overlay_is_cleared_while_playing_with_an_empty_log() {
    let start = at(0, 50_000);
    let mut sm = playing(start);
    sm.display_osd(at(5_000, 55_000));
    assert_eq!(sm.take_outputs(), vec![Output::Player(Request::osd_overlay(""))]);
}

#[test]
fn overlay_lists_the_log_newest_first() {
    let now = at(0, 0);
    let mut sm = StateMachine::new(now);
    sm.process_event(from_peer("B", 0, Action::Ready), now);
    sm.take_outputs();
    assert_eq!(
        sm.osd_text(),
        "\\N\\Nready: {\\c&HFF&}you{\\r} {\\c&HFF00&}network{\\r}\\N{\\c&HFF00&}B{\\r}\\N{\\fs40}B is ready{\\r}\\N{\\fs40}oh hi B{\\r}"
    );
}

#[test]
fn take_outputs_empties_the_queue() {
    let now = at(0, 0);
    let mut sm = StateMachine::new(now);
    sm.process_event(Event::KeepAlive, now);
    assert_eq!(sm.take_outputs().len(), 2);
    assert!(sm.take_outputs().is_empty());
}

#[test]
fn observe_request_names_the_property() {
    let r = Request::observe_property(Property::Seeking);
    assert_eq!(r.command, RequestType::ObserveProperty);
    assert_eq!(r.v1, Value::Integer(1));
    assert_eq!(r.v2, Value::Name(Property::Seeking));
}

#[test]
fn resume_while_the_network_is_not_ready_is_answered_with_a_pause() {
    let now = at(0, 0);
    let mut sm = StateMachine::new(now);
    sm.process_event(from_peer("B", 0, Action::Unready), now);
    sm.process_event(ready_pressed(), now);
    sm.take_outputs();
    assert!(sm.local_state().ready && !sm.network_ready());
    sm.process_event(named("unpause"), at(10, 10));
    let out = sm.take_outputs();
    assert_eq!(without_overlays(&player(&out)), vec![Request::set_pause(true)]);
    assert_eq!(network(&out), vec![Action::Unready]);
    assert!(!sm.local_state().ready);
}

#[test]
fn a_clock_that_steps_back_keeps_the_log() {
    let mut sm = StateMachine::new(at(5_000, 0));
    sm.process_event(ready_pressed(), at(5_000, 0));
    sm.display_osd(at(100, 0));
    assert_eq!(sm.log_len(), 1);
    sm.process_event(Event::KeepAlive, at(100, 0));
    assert!(sm.local_state().paused);
}

#[test]
fn distance_between_positions() {
    assert_eq!(synco::statemachine::span(100_000, 103_000), 3_000);
    assert_eq!(synco::statemachine::span(5, -5), 10);
    assert_eq!(synco::statemachine::span(i64::MIN, i64::MAX), u64::MAX);
    assert_eq!(synco::statemachine::span(7, 7), 0);
}

#[test]
fn calculated_position_saturates() {
    let now = at(0, 10);
    let mut sm = StateMachine::new(now);
    sm.process_event(from_peer("B", 0, Action::Ready), now);
    sm.process_event(ready_pressed(), now);
    sm.process_event(from_peer("B", 0, Action::Seek { pos: i64::MAX - 5 }), now);
    assert_eq!(sm.calculated_pos(at(0, 1_000)), Some(i64::MAX));
    assert_eq!(sm.calculated_pos(at(0, 3)), Some(i64::MAX - 2));
    assert_eq!(StateMachine::new(now).calculated_pos(now), None);
}

#[test]
fn ready_press_on_a_running_player_sends_no_resume() {
    let now = at(0, 0);
    let mut sm = StateMachine::new(now);
    sm.process_event(from_peer("B", 0, Action::Ready), now);
    sm.process_event(named("unpause"), now);
    sm.take_outputs();
    assert!(!sm.local_state().paused);
    assert!(!sm.local_state().ready);
    sm.process_event(ready_pressed(), at(5_000, 5_000));
    let out = sm.take_outputs();
    assert_eq!(out.len(), 2);
    assert!(is_overlay(&player(&out)[0]));
    assert_eq!(out[1], Output::Network(Action::Ready));
    assert!(sm.local_state().ready);
    assert!(!sm.local_state().paused);
}

#[test]
fn start_playback_on_a_running_player_does_nothing() {
    let start = at(0, 50_000);
    let mut sm = playing(start);
    sm.process_event(from_peer("B", 50_000, Action::Seek { pos: 0 }), start);
    sm.take_outputs();
    let target = sm.seek_target();
    assert!(target.is_some());
    let lines = sm.log_len();
    let before = sm.local_state();
    sm.start_playback(at(10, 50_010));
    assert!(sm.take_outputs().is_empty());
    assert_eq!(sm.seek_target(), target);
    assert_eq!(sm.log_len(), lines);
    assert_eq!(sm.local_state(), before);
    assert!(!sm.local_state().paused);
}

#[test]
fn start_playback_on_a_paused_player_resumes_it() {
    let now = at(0, 0);
    let mut sm = StateMachine::new(now);
    sm.process_event(from_peer("B", 0, Action::Seek { pos: 0 }), now);
    sm.take_outputs();
    assert!(sm.seek_target().is_some());
    sm.start_playback(at(10, 10));
    let out = sm.take_outputs();
    assert_eq!(out.len(), 2);
    assert_eq!(out[0], Output::Player(Request::set_pause(false)));
    assert!(overlay_text(&player(&out)[1]).contains("everyone is ready, go"));
    assert!(network(&out).is_empty());
    assert_eq!(sm.seek_target(), None);
    assert!(!sm.local_state().paused);
    assert!(!sm.local_state().ready);
}

#[test]
fn second_ready_of_a_peer_starts_nothing_anew() {
    let start = at(0, 50_000);
    let mut sm = playing(start);
    sm.process_event(from_peer("B", 50_000, Action::Ready), at(3_000, 53_000));
    let out = sm.take_outputs();
    assert_eq!(out.len(), 1);
    assert!(is_overlay(&player(&out)[0]));
    assert!(overlay_text(&player(&out)[0]).contains("B is ready"));
}

#[test]
fn stop_playback_pauses_a_running_ready_machine() {
    let start = at(0, 50_000);
    let mut sm = playing(start);
    sm.process_event(from_peer("B", 50_000, Action::Seek { pos: 0 }), start);
    sm.take_outputs();
    sm.stop_playback(at(5_000, 55_000), "why not");
    let out = sm.take_outputs();
    assert_eq!(out[0], Output::Player(Request::set_pause(true)));
    assert_eq!(without_overlays(&player(&out)), vec![Request::set_pause(true)]);
    assert_eq!(network(&out), vec![Action::Unready]);
    assert!(overlay_text(player(&out).last().unwrap()).contains("stopped playback: why not"));
    assert!(sm.local_state().paused && !sm.local_state().ready);
    assert_eq!(sm.seek_target(), None);
}

#[test]
fn stop_playback_on_a_paused_idle_machine_only_logs() {
    let now = at(0, 0);
    let mut sm = StateMachine::new(now);
    sm.process_event(from_peer("B", 0, Action::Seek { pos: 0 }), now);
    sm.take_outputs();
    let target = sm.seek_target();
    sm.stop_playback(at(9, 9), "idle");
    let out = sm.take_outputs();
    assert_eq!(out.len(), 1);
    assert!(overlay_text(&player(&out)[0]).contains("stopped playback: idle"));
    assert_eq!(sm.seek_target(), target);
    assert!(sm.local_state().paused && !sm.local_state().ready);
}

#[test]
fn start_to_be_ready_announces_and_leaves_the_rest() {
    let now = at(0, 0);
    let mut sm = StateMachine::new(now);
    sm.process_event(from_peer("B", 0, Action::Ready), now);
    sm.take_outputs();
    sm.start_to_be_ready(at(1, 1));
    let out = sm.take_outputs();
    assert_eq!(out.len(), 2);
    assert!(overlay_text(&player(&out)[0]).contains("you are ready"));
    assert_eq!(out[1], Output::Network(Action::Ready));
    assert!(sm.local_state().ready && sm.local_state().paused);
    assert!(sm.network_ready());
    assert!(!sm.pending_seek());
}

#[test]
fn seeking_target_check_sets_the_flag_without_a_seek_on_record() {
    let now = at(0, 0);
    let mut sm = StateMachine::new(now);
    sm.seeking_target_check(now);
    assert!(sm.pending_seek());
    assert!(sm.take_outputs().is_empty());
    assert_eq!(sm.seek_target(), None);
}

#[test]
fn seeking_target_check_takes_a_restart_near_the_target_for_an_echo() {
    let start = at(0, 50_000);
    let mut sm = playing(start);
    sm.process_event(time_pos(30_400), start);
    sm.process_event(from_peer("B", 50_000, Action::Seek { pos: 30_000 }), start);
    sm.take_outputs();
    sm.seeking_target_check(at(100, 50_100));
    assert!(!sm.pending_seek());
    sm.seeking_target_check(at(1_000, 50_901));
    assert!(sm.pending_seek());
    assert!(sm.take_outputs().is_empty());
    assert_eq!(sm.seek_target(), Some((50_000, 30_000)));
}

#[test]
fn ready_that_reveals_an_unready_peer_leaves_the_player_running() {
    let start = at(0, 50_000);
    let mut sm = playing(start);
    sm.process_event(ready_pressed(), start);
    sm.process_event(from_peer("C", 50_000, Action::Position { pos: 1 }), start);
    assert!(sm.network_ready());
    sm.process_event(from_peer("B", 50_000, Action::Ready), start);
    assert!(!sm.network_ready());
    sm.process_event(ready_pressed(), start);
    let out = sm.take_outputs();
    assert!(sm.local_state().ready && !sm.network_ready());
    assert!(!sm.local_state().paused);
    assert!(!player(&out).contains(&Request::set_pause(true)));
}

#[test]
fn solo_presses_announce_ready_and_not_ready_in_turn() {
    let mut sm = StateMachine::new(at(0, 0));
    sm.process_event(ready_pressed(), at(0, 0));
    sm.take_outputs();
    for i in 1..6u64 {
        sm.process_event(ready_pressed(), at(i, i));
    }
    let out = sm.take_outputs();
    assert_eq!(
        network(&out),
        vec![Action::Unready, Action::Ready, Action::Unready, Action::Ready, Action::Unready]
    );
    assert!(player(&out).iter().all(is_overlay));
    assert_eq!(player(&out).len(), 5);
    assert!(!sm.local_state().ready);
}
