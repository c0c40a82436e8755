use naviz_core::playback::Playback;

#[test]
fn new_controller_is_paused_at_start() {
    let p = Playback::new(100);
    assert_eq!(p.time(), 0);
    assert!(!p.is_playing());
}

#[test]
fn ticks_advance_only_while_playing() {
    let mut p = Playback::new(100);
    p.tick(10);
    assert_eq!(p.time(), 0);
    p.resume();
    p.tick(10);
    assert_eq!(p.time(), 10);
    p.tick(25);
    assert_eq!(p.time(), 35);
    assert!(p.is_playing());
}

#[test]
fn reaching_the_end_clamps_and_pauses() {
    let mut p = Playback::new(100);
    p.resume();
    p.tick(250);
    assert_eq!(p.time(), 100);
    assert!(!p.is_playing());
}

#[test]
fn seek_clamps_and_keeps_play_state() {
    let mut p = Playback::new(100);
    p.seek(40);
    assert_eq!(p.time(), 40);
    assert!(!p.is_playing());
    p.resume();
    p.seek(1000);
    assert_eq!(p.time(), 100);
    assert!(p.is_playing());
}

#[test]
fn pause_and_resume_do_not_move_the_cursor() {
    let mut p = Playback::new(100);
    p.resume();
    p.tick(30);
    p.pause();
    assert_eq!(p.time(), 30);
    p.resume();
    assert_eq!(p.time(), 30);
    assert!(p.is_playing());
}

#[test]
fn replay_by_seeking_to_start_and_resuming() {
    let mut p = Playback::new(50);
    p.resume();
    p.tick(80);
    assert!(!p.is_playing());
    p.seek(0);
    p.resume();
    p.tick(20);
    assert_eq!(p.time(), 20);
    assert!(p.is_playing());
}

#[test]
fn many_small_ticks_accumulate_without_drift() {
    let mut a = Playback::new(1_000_000);
    let mut b = Playback::new(1_000_000);
    a.resume();
    b.resume();
    for _ in 0..1000 {
        a.tick(7);
    }
    b.tick(7000);
    assert_eq!(a.time(), b.time());
    assert_eq!(a.time(), 7000);
}

#[test]
fn zero_duration_pauses_on_first_tick() {
    let mut p = Playback::new(0);
    p.resume();
    p.tick(0);
    assert_eq!(p.time(), 0);
    assert!(!p.is_playing());
}
