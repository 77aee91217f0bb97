use statusline::timer::RunTimer;

#[test]
fn new_timer_runs_immediately() {
    let t = RunTimer::new(1000);
    assert_eq!(t.elapsed_running_ms, 0);
    assert_eq!(t.last_resume_at, Some(1000));
    assert!(!t.is_paused);
    assert_eq!(t.spinner_started_at, 1000);
}

#[test]
fn snapshot_is_pure_and_counts_running_time() {
    let t = RunTimer::new(0);
    let s1 = t.snapshot(2500);
    let s2 = t.snapshot(2500);
    assert_eq!(s1.elapsed_running_ms, 2500);
    assert_eq!(s1, s2);
    assert!(!s1.is_paused);
    assert_eq!(s1.last_resume_at, Some(0));
}

#[test]
fn elapsed_is_monotone_while_running() {
    let t = RunTimer::new(100);
    let mut prev = 0;
    for now in [100, 150, 400, 1000, 50_000] {
        let e = t.snapshot(now).elapsed_running_ms;
        assert!(e >= prev);
        prev = e;
    }
}

#[test]
fn elapsed_is_constant_while_paused() {
    let mut t = RunTimer::new(0);
    t.pause(4000);
    assert_eq!(t.snapshot(4000).elapsed_running_ms, 4000);
    assert_eq!(t.snapshot(9000).elapsed_running_ms, 4000);
    assert_eq!(t.snapshot(1_000_000).elapsed_running_ms, 4000);
}

#[test]
fn paused_gap_is_never_counted() {
    let mut t = RunTimer::new(0);
    t.pause(4000);
    let before_pause = t.snapshot(9000).elapsed_running_ms;
    assert_eq!(before_pause, 4000);
    t.resume(9000);
    assert_eq!(t.snapshot(12000).elapsed_running_ms, before_pause + 3000);
}

#[test]
fn pause_and_resume_are_idempotent() {
    let mut t = RunTimer::new(0);
    t.pause(1000);
    t.pause(2000);
    assert_eq!(t.snapshot(5000).elapsed_running_ms, 1000);
    t.resume(5000);
    t.resume(7000);
    assert_eq!(t.last_resume_at, Some(5000));
    assert_eq!(t.snapshot(8000).elapsed_running_ms, 1000 + 3000);
}

#[test]
fn backward_clock_never_goes_negative() {
    let t = RunTimer::new(1000);
    assert_eq!(t.snapshot(500).elapsed_running_ms, 0);
    let mut t2 = RunTimer::new(1000);
    t2.pause(200);
    assert_eq!(t2.snapshot(5000).elapsed_running_ms, 0);
}

#[test]
fn spinner_anchor_survives_pause_and_resume() {
    let mut t = RunTimer::new(777);
    t.pause(1000);
    t.resume(2000);
    assert_eq!(t.spinner_started_at, 777);
}
