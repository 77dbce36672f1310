use oberon::app_loop::Loop;
use oberon::timer::Timer;

#[test]
fn overrun_frame_sleeps_zero() {
    let mut timer = Timer::new(50, 1_000);
    assert_eq!(timer.start_frame(6_000), 5_000);
    assert_eq!(timer.end_frame(6_000 + 30_000_000), 0);
}

#[test]
fn short_frame_sleeps_rest_of_budget() {
    let mut timer = Timer::new(50, 0);
    timer.start_frame(100);
    assert_eq!(timer.end_frame(100 + 1_000), 19_999_000);
    assert_eq!(timer.end_frame(100 + 20_000_000), 0);
}

#[test]
fn clock_going_back_counts_as_no_time() {
    let mut timer = Timer::new(60, 500);
    assert_eq!(timer.start_frame(100), 0);
    assert_eq!(timer.end_frame(50), 16_666_666);
}

#[test]
fn loop_runs_until_shutdown() {
    let l = Loop::new();
    assert!(l.is_running());
    l.shutdown();
    assert!(!l.is_running());
    l.shutdown();
    assert!(!l.is_running());
}
