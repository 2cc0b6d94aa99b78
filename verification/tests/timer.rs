use gem_td::timer::Timer;

#[test]
fn new_timer_has_not_finished() {
    let timer = Timer::new(1000, true);
    assert_eq!(
        timer,
        Timer { elapsed: 0, duration: 1000, repeating: true, finished: false, times_finished: 0 }
    );
    assert!(!timer.finished());
    assert!(!timer.just_finished());
}

#[test]
fn single_timer_finishes_once_and_stops() {
    let mut timer = Timer::new(1000, false);
    timer.tick(250);
    assert_eq!(timer.elapsed, 250);
    assert!(!timer.finished());
    assert!(!timer.just_finished());
    timer.tick(5000);
    assert_eq!(timer.elapsed, 1000);
    assert!(timer.finished());
    assert!(timer.just_finished());
    assert_eq!(timer.times_finished, 1);
    timer.tick(100);
    assert_eq!(timer.elapsed, 1000);
    assert!(timer.finished());
    assert!(!timer.just_finished());
    assert_eq!(timer.times_finished, 0);
}

#[test]
fn repeating_timer_keeps_the_remainder() {
    let mut timer = Timer::new(2000, true);
    timer.tick(750);
    assert_eq!(timer.elapsed, 750);
    assert!(!timer.just_finished());
    timer.tick(1500);
    assert_eq!(timer.elapsed, 250);
    assert!(timer.finished());
    assert!(timer.just_finished());
    assert_eq!(timer.times_finished, 1);
    timer.tick(1000);
    assert_eq!(timer.elapsed, 1250);
    assert!(!timer.finished());
    assert!(!timer.just_finished());
    assert_eq!(timer.times_finished, 0);
}

#[test]
fn repeating_timer_counts_its_completions() {
    let mut timer = Timer::new(1000, true);
    timer.tick(3500);
    assert_eq!(timer.times_finished, 3);
    assert_eq!(timer.elapsed, 500);
    let mut fast = Timer::new(1, true);
    fast.tick(u32::MAX);
    assert_eq!(fast.times_finished, u32::MAX);
    assert_eq!(fast.elapsed, 0);
}

#[test]
fn timer_completes_exactly_on_time() {
    let mut timer = Timer::new(1000, true);
    timer.tick(999);
    assert!(!timer.just_finished());
    timer.tick(1);
    assert!(timer.just_finished());
    assert_eq!(timer.elapsed, 0);
}

#[test]
fn repeating_timer_of_no_duration_completes_each_tick() {
    let mut timer = Timer::new(0, true);
    timer.tick(0);
    assert!(timer.just_finished());
    assert_eq!(timer.times_finished, u32::MAX);
    timer.tick(40);
    assert!(timer.just_finished());
    assert_eq!(timer.elapsed, 0);
}

#[test]
fn set_duration_keeps_the_elapsed_time() {
    let mut timer = Timer::new(1000, true);
    timer.tick(600);
    timer.set_duration(500);
    assert_eq!(timer.elapsed, 600);
    assert_eq!(timer.duration, 500);
    timer.tick(0);
    assert!(timer.just_finished());
    assert_eq!(timer.elapsed, 100);
}

#[test]
fn reset_starts_over() {
    let mut timer = Timer::new(1000, false);
    timer.tick(1000);
    assert!(timer.finished());
    timer.reset();
    assert_eq!(
        timer,
        Timer { elapsed: 0, duration: 1000, repeating: false, finished: false, times_finished: 0 }
    );
}
