use countdown_tui::timer::CountdownState;
use countdown_tui::timer::TimerMode;

#[test]
fn new_state_holds_the_full_duration_unpaused() {
    let state = CountdownState::new(10, TimerMode::CountDown);
    assert_eq!(state.remaining_duration(), 10);
    assert_eq!(state.total_duration(), 10);
    assert!(!state.is_paused());
    assert_eq!(state.display_duration(), 10);
}

#[test]
fn tick_counts_down_one_second() {
    let mut state = CountdownState::new(10, TimerMode::CountDown);
    state.tick();
    assert_eq!(state.remaining_duration(), 9);
    state.tick();
    assert_eq!(state.remaining_duration(), 8);
}

#[test]
fn tick_floors_at_zero() {
    let mut state = CountdownState::new(1, TimerMode::CountDown);
    state.tick();
    assert_eq!(state.remaining_duration(), 0);
    state.tick();
    assert_eq!(state.remaining_duration(), 0);
}

#[test]
fn tick_while_paused_changes_nothing() {
    let mut state = CountdownState::new(10, TimerMode::CountDown);
    state.tick();
    state.pause();
    state.tick();
    state.tick();
    assert_eq!(state.remaining_duration(), 9);
    assert!(state.is_paused());
}

#[test]
fn pause_and_resume_are_idempotent() {
    let mut state = CountdownState::new(10, TimerMode::CountDown);
    state.pause();
    let once = (state.is_paused(), state.remaining_duration());
    state.pause();
    assert_eq!((state.is_paused(), state.remaining_duration()), once);
    state.resume();
    let once = (state.is_paused(), state.remaining_duration());
    state.resume();
    assert_eq!((state.is_paused(), state.remaining_duration()), once);
}

#[test]
fn resume_after_pause_continues_counting() {
    let mut state = CountdownState::new(10, TimerMode::CountDown);
    state.tick();
    state.pause();
    state.tick();
    state.resume();
    state.tick();
    assert_eq!(state.remaining_duration(), 8);
}

#[test]
fn count_up_display_shows_elapsed_time() {
    let mut state = CountdownState::new(10, TimerMode::CountUp);
    assert_eq!(state.display_duration(), 0);
    state.tick();
    state.tick();
    assert_eq!(state.display_duration(), 2);
    assert_eq!(state.remaining_duration(), 8);
}

#[test]
fn display_modes_sum_to_the_total() {
    let mut down = CountdownState::new(10, TimerMode::CountDown);
    let mut up = CountdownState::new(10, TimerMode::CountUp);
    for _ in 0..4 {
        down.tick();
        up.tick();
    }
    assert_eq!(down.remaining_duration(), up.remaining_duration());
    assert_eq!(down.display_duration() + up.display_duration(), 10);
}

#[test]
fn invariant_holds_under_arbitrary_call_sequences() {
    let mut state = CountdownState::new(3, TimerMode::CountDown);
    let check = |s: &CountdownState| assert!(s.remaining_duration() <= s.total_duration());
    state.tick();
    check(&state);
    state.pause();
    check(&state);
    state.tick();
    check(&state);
    state.resume();
    check(&state);
    state.tick();
    check(&state);
    state.tick();
    check(&state);
    state.tick();
    check(&state);
    state.tick();
    check(&state);
}
