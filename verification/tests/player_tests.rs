use jolteon::command::{dispatch_command, Command};
use jolteon::player::{Player, PlayerStatus, SEEK_STEP_MS};
use jolteon::queue::{Queue, Track};

fn track(path: &str, length_ms: u64) -> Track {
    Track::new(String::from(path), String::from(path), length_ms)
}

fn pipeline_of(p: &Player) -> &jolteon::pipeline::Pipeline {
    &p.current.as_ref().unwrap().pipeline
}

#[test]
fn volume_stays_clamped_under_any_sequence_of_changes() {
    let mut p = Player::new(Queue::new());
    assert_eq!(p.volume, 100);
    p.change_volume(-5);
    assert_eq!(p.volume, 95);
    p.change_volume(-1000);
    assert_eq!(p.volume, 0);
    p.change_volume(-5);
    assert_eq!(p.volume, 0);
    p.change_volume(5);
    assert_eq!(p.volume, 5);
    p.change_volume(i32::MAX);
    assert_eq!(p.volume, 100);
    p.change_volume(5);
    assert_eq!(p.volume, 100);
    p.change_volume(i32::MIN);
    assert_eq!(p.volume, 0);
}

#[test]
fn volume_reaches_the_gain_stage_at_the_next_tap() {
    let mut p = Player::new(Queue::new());
    p.play_now(track("a", 60000), true);
    p.change_volume(-40);
    assert_eq!(pipeline_of(&p).volume, 100);
    p.tap();
    assert_eq!(pipeline_of(&p).volume, 60);
}

#[test]
fn toggle_is_a_noop_when_idle() {
    let mut p = Player::new(Queue::new());
    assert_eq!(p.status(), PlayerStatus::Idle);
    p.toggle();
    assert_eq!(p.status(), PlayerStatus::Idle);
}

#[test]
fn toggle_flips_between_playing_and_paused() {
    let mut p = Player::new(Queue::new());
    p.play_now(track("a", 60000), true);
    assert_eq!(p.status(), PlayerStatus::Playing);
    p.toggle();
    assert_eq!(p.status(), PlayerStatus::Paused);
    p.toggle();
    assert_eq!(p.status(), PlayerStatus::Playing);
}

#[test]
fn paused_player_holds_its_position() {
    let mut p = Player::new(Queue::new());
    p.play_now(track("a", 60000), true);
    p.render_tick(2000);
    assert_eq!(p.get_pos(), 2000);
    p.toggle();
    p.tap();
    for _ in 0..30 {
        assert!(p.render_tick(1000));
    }
    assert_eq!(p.get_pos(), 2000);
    p.toggle();
    p.tap();
    p.render_tick(1000);
    assert_eq!(p.get_pos(), 3000);
}

#[test]
fn repeated_seek_forward_clamps_at_track_length() {
    // A 12 s track and a 5 s step: three steps land exactly on the end,
    // and more steps do not pass it.
    let mut p = Player::new(Queue::new());
    p.play_now(track("a", 12000), true);
    for _ in 0..3 {
        p.seek_forward();
        p.tap();
    }
    assert_eq!(p.get_pos(), 12000);
    p.seek_forward();
    p.tap();
    assert_eq!(p.get_pos(), 12000);
}

#[test]
fn seek_backward_clamps_at_track_start() {
    let mut p = Player::new(Queue::new());
    p.play_now(track("a", 60000), true);
    p.seek_forward();
    p.tap();
    assert_eq!(p.get_pos(), SEEK_STEP_MS);
    p.seek_backward();
    p.tap();
    assert_eq!(p.get_pos(), 0);
    p.seek_backward();
    p.tap();
    assert_eq!(p.get_pos(), 0);
}

#[test]
fn seek_requests_coalesce_between_taps() {
    let mut p = Player::new(Queue::new());
    p.play_now(track("a", 60000), true);
    p.seek_forward();
    p.seek_backward();
    p.tap();
    assert_eq!(p.get_pos(), 0);
}

#[test]
fn play_through_queue_then_idle() {
    // Queue [A(3 min), B(2 min)]: play A, let it run out, the loop loads
    // B and stays playing; when B runs out the player goes idle.
    let mut q = Queue::new();
    let a = track("a", 180000);
    let b = track("b", 120000);
    assert!(q.add(a.clone()));
    assert!(q.add(b));
    let mut p = Player::new(q);
    p.play_now(a, true);
    assert_eq!(p.queue.total_time(), 300000);
    assert_eq!(p.status(), PlayerStatus::Playing);

    assert!(p.render_tick(180000));
    assert!(!p.render_tick(1));
    let next = p.next_track().expect("A is followed by B");
    assert_eq!(next.path, "b");
    p.finish_track();
    p.play_now(next, true);
    assert_eq!(p.status(), PlayerStatus::Playing);

    assert!(p.render_tick(120000));
    assert!(!p.render_tick(1));
    assert!(p.next_track().is_none());
    p.finish_track();
    assert_eq!(p.status(), PlayerStatus::Idle);
    assert!(p.currently_playing().is_none());
    assert_eq!(p.get_pos(), 0);
}

#[test]
fn play_now_replaces_current_track_and_keeps_volume() {
    let mut p = Player::new(Queue::new());
    p.change_volume(-30);
    p.play_now(track("a", 60000), true);
    assert_eq!(pipeline_of(&p).volume, 70);
    p.render_tick(5000);
    p.play_now(track("b", 30000), true);
    assert_eq!(p.get_pos(), 0);
    assert_eq!(pipeline_of(&p).volume, 70);
    assert_eq!(p.currently_playing().unwrap().path, "b");
}

#[test]
fn stop_request_ends_the_stream_at_the_next_tap() {
    let mut p = Player::new(Queue::new());
    p.play_now(track("a", 60000), true);
    p.stop();
    assert!(p.render_tick(1000));
    p.tap();
    assert!(!p.render_tick(1000));
    assert!(p.next_track().is_none());
    p.finish_track();
    assert_eq!(p.status(), PlayerStatus::Idle);
}

#[test]
fn command_play_pause_toggles_and_next_stops() {
    let mut p = Player::new(Queue::new());
    p.play_now(track("a", 60000), true);
    dispatch_command(&mut p, Command::PlayPause);
    assert_eq!(p.status(), PlayerStatus::Paused);
    dispatch_command(&mut p, Command::PlayPause);
    assert_eq!(p.status(), PlayerStatus::Playing);
    dispatch_command(&mut p, Command::Next);
    p.tap();
    assert!(!p.render_tick(1000));
}

#[test]
fn commands_are_noops_when_idle() {
    let mut p = Player::new(Queue::new());
    dispatch_command(&mut p, Command::PlayPause);
    dispatch_command(&mut p, Command::Next);
    assert_eq!(p.status(), PlayerStatus::Idle);
}

#[test]
fn playback_state_snapshot_reports_the_live_values() {
    let mut p = Player::new(Queue::new());
    let s = p.playback_state();
    assert!(s.current_track.is_none());
    assert_eq!(s.position_ms, 0);
    assert!(!s.paused);
    assert!(!s.stopped);
    assert_eq!(s.volume, 100);

    p.play_now(track("a", 60000), true);
    p.render_tick(1500);
    p.toggle();
    let s = p.playback_state();
    assert_eq!(s.current_track.unwrap().path, "a");
    assert_eq!(s.position_ms, 1500);
    assert!(s.paused);
    assert!(!s.stopped);
}

#[test]
fn render_tick_when_idle_reports_no_stream() {
    let mut p = Player::new(Queue::new());
    assert!(!p.render_tick(1000));
}
