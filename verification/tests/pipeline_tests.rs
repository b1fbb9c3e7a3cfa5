use jolteon::pipeline::{Pipeline, SeekError, VOLUME_UNITY};

#[test]
fn fresh_pipeline_starts_at_zero_unity_and_running() {
    let p = Pipeline::new(10000, true);
    assert_eq!(p.pos(), 0);
    assert_eq!(p.volume, VOLUME_UNITY);
    assert!(!p.stopped);
    assert!(!p.skipped);
    assert!(!p.paused);
    assert_eq!(p.length_ms, 10000);
}

#[test]
fn advance_moves_position_and_clamps_at_track_end() {
    let mut p = Pipeline::new(10000, true);
    assert!(p.advance(4000));
    assert_eq!(p.pos(), 4000);
    assert!(p.advance(4000));
    assert_eq!(p.pos(), 8000);
    assert!(p.advance(4000));
    assert_eq!(p.pos(), 10000);
    assert!(!p.advance(1));
    assert_eq!(p.pos(), 10000);
}

#[test]
fn paused_time_does_not_advance_position() {
    // Pause, let plenty of render time pass, unpause: the tracker reads
    // what it read before the pause.
    let mut p = Pipeline::new(60000, true);
    assert!(p.advance(1500));
    let before = p.pos();
    p.set_paused(true);
    for _ in 0..10 {
        assert!(p.advance(1000));
    }
    p.set_paused(false);
    assert_eq!(p.pos(), before);
    assert!(p.advance(1000));
    assert_eq!(p.pos(), before + 1000);
}

#[test]
fn stop_is_terminal_and_irreversible() {
    let mut p = Pipeline::new(10000, true);
    assert!(p.advance(1000));
    p.stop();
    assert!(!p.advance(1000));
    assert!(!p.advance(1000));
    assert_eq!(p.pos(), 1000);
}

#[test]
fn skip_is_terminal_like_stop() {
    let mut p = Pipeline::new(10000, true);
    p.skip();
    assert!(!p.advance(1000));
    assert!(!p.stopped);
    assert!(p.skipped);
}

#[test]
fn try_seek_clamps_to_track_bounds() {
    let mut p = Pipeline::new(10000, true);
    assert_eq!(p.try_seek(7000), Ok(()));
    assert_eq!(p.pos(), 7000);
    assert_eq!(p.try_seek(25000), Ok(()));
    assert_eq!(p.pos(), 10000);
    assert_eq!(p.try_seek(0), Ok(()));
    assert_eq!(p.pos(), 0);
}

#[test]
fn try_seek_on_unseekable_backend_fails_and_changes_nothing() {
    let mut p = Pipeline::new(10000, false);
    assert!(p.advance(2000));
    assert_eq!(p.try_seek(5000), Err(SeekError::NotSupported));
    assert_eq!(p.pos(), 2000);
}

#[test]
fn seek_bypasses_gain_and_pause_stages() {
    let mut p = Pipeline::new(10000, true);
    p.set_volume(40);
    p.set_paused(true);
    assert_eq!(p.try_seek(3000), Ok(()));
    assert_eq!(p.pos(), 3000);
    assert_eq!(p.volume, 40);
    assert!(p.paused);
}

#[test]
fn gain_stage_takes_any_factor_unclamped() {
    // The stage itself does not clamp; clamping is the Player's contract.
    let mut p = Pipeline::new(10000, true);
    p.set_volume(250);
    assert_eq!(p.volume, 250);
}
