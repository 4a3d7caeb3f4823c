use countdown_tui::control::ControlEvent;
use countdown_tui::control::DeadlineCmd;
use countdown_tui::control::InputKey;
use countdown_tui::control::LoopOutcome;
use countdown_tui::control::RenderCmd;
use countdown_tui::control::Session;
use countdown_tui::timer::TimerMode;

#[test]
fn five_second_countdown_expires_without_a_zero_render() {
    let mut session = Session::new(5, TimerMode::CountDown, false);
    let start = session.on_start();
    assert!(start.clear_first);
    assert_eq!(start.render, RenderCmd::Countdown(5));
    assert_eq!(start.outcome, LoopOutcome::Continue);
    for expected in [4u64, 3, 2, 1, 0] {
        let step = session.handle_event(ControlEvent::Tick);
        assert_eq!(step.render, RenderCmd::Countdown(expected));
        assert_eq!(step.deadline, DeadlineCmd::Keep);
        assert_eq!(step.outcome, LoopOutcome::Continue);
    }
    assert_eq!(session.timer().remaining_duration(), 0);
    let last = session.handle_event(ControlEvent::DeadlineFired);
    assert_eq!(last.outcome, LoopOutcome::Expired);
    assert_eq!(last.render, RenderCmd::NoRender);
}

#[test]
fn resume_reanchors_the_deadline_to_the_remaining_time() {
    let mut session = Session::new(5, TimerMode::CountDown, false);
    session.handle_event(ControlEvent::Tick);
    session.handle_event(ControlEvent::Tick);
    assert_eq!(session.timer().remaining_duration(), 3);
    let paused = session.handle_event(ControlEvent::Key(InputKey::PauseToggle));
    assert_eq!(paused.render, RenderCmd::PausedBanner);
    assert_eq!(paused.deadline, DeadlineCmd::Suspend);
    // However long the pause lasts, ticks keep arriving and change nothing.
    for _ in 0..10 {
        let idle = session.handle_event(ControlEvent::Tick);
        assert_eq!(idle.render, RenderCmd::NoRender);
        assert_eq!(idle.deadline, DeadlineCmd::Keep);
    }
    assert_eq!(session.timer().remaining_duration(), 3);
    let resumed = session.handle_event(ControlEvent::Key(InputKey::PauseToggle));
    assert_eq!(resumed.deadline, DeadlineCmd::Reschedule(3));
    assert_eq!(resumed.render, RenderCmd::Countdown(3));
    assert_eq!(resumed.outcome, LoopOutcome::Continue);
}

#[test]
fn quit_ends_the_loop_without_rendering() {
    let mut session = Session::new(5, TimerMode::CountDown, false);
    let step = session.handle_event(ControlEvent::Key(InputKey::Quit));
    assert_eq!(step.outcome, LoopOutcome::Quit);
    assert_eq!(step.render, RenderCmd::NoRender);
    assert_eq!(session.timer().remaining_duration(), 5);
}

#[test]
fn other_keys_are_ignored() {
    let mut session = Session::new(5, TimerMode::CountDown, false);
    let step = session.handle_event(ControlEvent::Key(InputKey::Other));
    assert_eq!(step.outcome, LoopOutcome::Continue);
    assert_eq!(step.render, RenderCmd::NoRender);
    assert_eq!(session.timer().remaining_duration(), 5);
}

#[test]
fn resize_clears_and_redraws_the_current_state() {
    let mut session = Session::new(5, TimerMode::CountDown, false);
    session.handle_event(ControlEvent::Tick);
    let step = session.handle_event(ControlEvent::Resize);
    assert!(step.clear_first);
    assert_eq!(step.render, RenderCmd::Countdown(4));
    assert_eq!(session.timer().remaining_duration(), 4);
    session.handle_event(ControlEvent::Key(InputKey::PauseToggle));
    let step = session.handle_event(ControlEvent::Resize);
    assert!(step.clear_first);
    assert_eq!(step.render, RenderCmd::PausedBanner);
}

#[test]
fn announcements_cover_only_the_last_ten_seconds_of_a_countdown() {
    let mut session = Session::new(12, TimerMode::CountDown, true);
    assert_eq!(session.on_start().announce, None);
    let step = session.handle_event(ControlEvent::Tick);
    assert_eq!(step.announce, None);  // 11 left
    let step = session.handle_event(ControlEvent::Tick);
    assert_eq!(step.announce, Some(10));
    for expected in [9u64, 8, 7, 6, 5, 4, 3, 2, 1] {
        let step = session.handle_event(ControlEvent::Tick);
        assert_eq!(step.announce, Some(expected));
    }
    let step = session.handle_event(ControlEvent::Tick);
    assert_eq!(step.announce, None);  // zero is never announced
}

#[test]
fn count_up_sessions_never_announce() {
    let mut session = Session::new(5, TimerMode::CountUp, true);
    assert_eq!(session.on_start().announce, None);
    let step = session.handle_event(ControlEvent::Tick);
    assert_eq!(step.announce, None);
    assert_eq!(step.render, RenderCmd::Countdown(1));
}

#[test]
fn a_short_say_countdown_announces_from_the_start() {
    let session = Session::new(5, TimerMode::CountDown, true);
    assert_eq!(session.on_start().announce, Some(5));
}
