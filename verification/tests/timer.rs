use flappy_sim::timer::Timer;
use flappy_sim::timer::TimerMode;

#[test]
fn new_timer_has_not_run() {
    let timer = Timer::new(5, TimerMode::Repeating);
    assert_eq!(timer, Timer { mode: TimerMode::Repeating, duration: 5, elapsed: 0, finished: false });
    assert!(!timer.finished());
}

#[test]
fn repeating_timer_fires_and_keeps_the_rest() {
    let mut timer = Timer::new(5, TimerMode::Repeating);
    timer.tick(3);
    assert!(!timer.finished());
    assert_eq!(timer.elapsed, 3);
    timer.tick(3);
    assert!(timer.finished());
    assert_eq!(timer.elapsed, 1);
    timer.tick(3);
    assert!(!timer.finished());
    assert_eq!(timer.elapsed, 4);
    timer.tick(1);
    assert!(timer.finished());
    assert_eq!(timer.elapsed, 0);
}

#[test]
fn repeating_timer_fires_once_for_a_long_step() {
    let mut timer = Timer::new(5, TimerMode::Repeating);
    timer.tick(17);
    assert!(timer.finished());
    assert_eq!(timer.elapsed, 2);
}

#[test]
fn repeating_timer_takes_the_longest_step() {
    let mut timer = Timer::new(u64::MAX, TimerMode::Repeating);
    timer.tick(u64::MAX - 1);
    assert!(!timer.finished());
    // (MAX - 1) + MAX = MAX + (MAX - 1)
    timer.tick(u64::MAX);
    assert!(timer.finished());
    assert_eq!(timer.elapsed, u64::MAX - 1);
}

#[test]
fn step_of_no_time_does_not_fire() {
    let mut timer = Timer::new(5, TimerMode::Repeating);
    timer.tick(0);
    assert!(!timer.finished());
    assert_eq!(timer.elapsed, 0);
}

#[test]
fn one_shot_timer_stays_finished() {
    let mut timer = Timer::new(5, TimerMode::Once);
    timer.tick(4);
    assert!(!timer.finished());
    assert_eq!(timer.elapsed, 4);
    timer.tick(4);
    assert!(timer.finished());
    assert_eq!(timer.elapsed, 5);
    timer.tick(4);
    assert!(timer.finished());
    assert_eq!(timer.elapsed, 5);
}

#[test]
fn reset_starts_the_countdown_again() {
    let mut timer = Timer::new(5, TimerMode::Once);
    timer.tick(9);
    timer.reset();
    assert_eq!(timer, Timer { mode: TimerMode::Once, duration: 5, elapsed: 0, finished: false });
}
