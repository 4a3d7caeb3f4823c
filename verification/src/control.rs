//! The control loop's decision core: from the current session state and one
//! event (tick, deadline, key, resize) to the next state and the actions the
//! surrounding loop must perform — what to render, what to do with the
//! one-shot deadline timer, whether to announce, and whether to stop.
use crate::timer::CountdownState;
use crate::timer::TimerMode;
use crate::timer::TimerModel;
use vstd::prelude::*;

verus! {

/// A logical input from the user, independent of the key bound to it.
#[derive(Clone, Copy, Debug, PartialEq, Eq, Structural)]
pub enum InputKey {
    PauseToggle,
    Quit,
    Other,
}

/// One event of the three classes the control loop multiplexes.
#[derive(Clone, Copy, Debug, PartialEq, Eq, Structural)]
pub enum ControlEvent {
    /// The recurring one-second visual tick.
    Tick,
    /// The absolute expiry deadline fired.
    DeadlineFired,
    /// A keypress, already mapped to its logical meaning.
    Key(InputKey),
    /// The terminal was resized.
    Resize,
}

/// What the loop should draw after a step.
#[derive(Clone, Copy, Debug, PartialEq, Eq, Structural)]
pub enum RenderCmd {
    NoRender,
    /// Draw the countdown digits for this display value.
    Countdown(u64),
    /// Draw the paused banner in place of the digits.
    PausedBanner,
}

/// What the loop should do with the one-shot deadline timer after a step.
#[derive(Clone, Copy, Debug, PartialEq, Eq, Structural)]
pub enum DeadlineCmd {
    /// Leave the deadline as it is.
    Keep,
    /// Push the deadline out so that it cannot fire while paused.
    Suspend,
    /// Re-anchor the deadline to fire this many seconds from now.
    Reschedule(u64),
}

/// Whether the loop goes on after a step, and if not, why it stops.
#[derive(Clone, Copy, Debug, PartialEq, Eq, Structural)]
pub enum LoopOutcome {
    Continue,
    /// The deadline fired: the session expired normally.
    Expired,
    /// The user asked to quit.
    Quit,
}

/// Everything one step of the control loop asks of its surroundings.
#[derive(Clone, Copy, Debug, PartialEq, Eq)]
pub struct StepResult {
    /// Clear the whole screen before rendering.
    pub clear_first: bool,
    pub render: RenderCmd,
    pub deadline: DeadlineCmd,
    /// Announce this many remaining seconds aloud, best-effort.
    pub announce: Option<u64>,
    pub outcome: LoopOutcome,
}

/// Mathematical model of a [`Session`].
pub struct SessionModel {
    pub timer: TimerModel,
    pub say: bool,
}

/// When a tick announces the remaining time aloud: only if enabled, only
/// while counting down, and only in the last ten seconds (never at zero).
pub open spec fn spec_announce(m: TimerModel, say: bool) -> Option<u64> {
    if say && m.mode == TimerMode::CountDown && 1 <= m.remaining <= 10 {
        Some(m.remaining)
    } else {
        None
    }
}

/// A step that changes no state and asks for nothing but to go on.
pub open spec fn quiet_step(outcome: LoopOutcome) -> StepResult {
    StepResult {
        clear_first: false,
        render: RenderCmd::NoRender,
        deadline: DeadlineCmd::Keep,
        announce: None,
        outcome,
    }
}

/// One timer session as the control loop sees it.
#[derive(Debug)]
pub struct Session {
    timer: CountdownState,
    say: bool,
}

impl View for Session {
    type V = SessionModel;

    closed spec fn view(&self) -> SessionModel {
        SessionModel { timer: self.timer@, say: self.say }
    }
}

impl Session {
    /// Start a session over a fresh timer state.
    pub fn new(total: u64, mode: TimerMode, say: bool) -> (s: Self)
        ensures
            s@.timer == (TimerModel { total, remaining: total, mode, paused: false }),
            s@.say == say,
            s@.timer.wf(),
    {
        Session { timer: CountdownState::new(total, mode), say }
    }

    pub fn timer(&self) -> (t: &CountdownState)
        ensures
            t@ == self@.timer,
    {
        &self.timer
    }

    /// The actions due when the loop enters: clear the screen, draw the
    /// initial display value, and announce it if it already qualifies.
    pub fn on_start(&self) -> (r: StepResult)
        requires
            self@.timer.wf(),
        ensures
            r == (StepResult {
                clear_first: true,
                render: RenderCmd::Countdown(self@.timer.display_model() as u64),
                deadline: DeadlineCmd::Keep,
                announce: spec_announce(self@.timer, self@.say),
                outcome: LoopOutcome::Continue,
            }),
    {
        StepResult {
            clear_first: true,
            render: RenderCmd::Countdown(self.timer.display_duration()),
            deadline: DeadlineCmd::Keep,
            announce: self.announce_now(),
            outcome: LoopOutcome::Continue,
        }
    }

    fn announce_now(&self) -> (a: Option<u64>)
        ensures
            a == spec_announce(self@.timer, self@.say),
    {
        let remaining = self.timer.remaining_duration();
        let down = match self.timer.mode() {
            TimerMode::CountDown => true,
            TimerMode::CountUp => false,
        };
        if self.say && down && 1 <= remaining && remaining <= 10 {
            Some(remaining)
        } else {
            None
        }
    }

    /// Handle one event: a tick takes a second off and redraws (a no-op
    /// while paused); the deadline ends the session with no further render;
    /// the pause key toggles between suspending the deadline behind the
    /// paused banner and re-anchoring it to the remaining time; quit ends
    /// the session; a resize clears and redraws without touching the state.
    pub fn handle_event(&mut self, ev: ControlEvent) -> (r: StepResult)
        requires
            old(self)@.timer.wf(),
        ensures
            final(self)@.timer.wf(),
            final(self)@.say == old(self)@.say,
            ev == ControlEvent::Tick && old(self)@.timer.paused ==> final(self)@ == old(self)@ && r
                == quiet_step(LoopOutcome::Continue),
            ev == ControlEvent::Tick && !old(self)@.timer.paused ==> final(self)@.timer
                == old(self)@.timer.tick_model() && r == (StepResult {
                clear_first: false,
                render: RenderCmd::Countdown(final(self)@.timer.display_model() as u64),
                deadline: DeadlineCmd::Keep,
                announce: spec_announce(final(self)@.timer, old(self)@.say),
                outcome: LoopOutcome::Continue,
            }),
            ev == ControlEvent::DeadlineFired ==> final(self)@ == old(self)@ && r == quiet_step(
                LoopOutcome::Expired,
            ),
            ev == ControlEvent::Key(InputKey::Quit) ==> final(self)@ == old(self)@ && r
                == quiet_step(LoopOutcome::Quit),
            ev == ControlEvent::Key(InputKey::Other) ==> final(self)@ == old(self)@ && r
                == quiet_step(LoopOutcome::Continue),
            ev == ControlEvent::Key(InputKey::PauseToggle) && old(self)@.timer.paused
                ==> final(self)@.timer == old(self)@.timer.resume_model() && r == (StepResult {
                clear_first: false,
                render: RenderCmd::Countdown(final(self)@.timer.display_model() as u64),
                deadline: DeadlineCmd::Reschedule(final(self)@.timer.remaining),
                announce: None,
                outcome: LoopOutcome::Continue,
            }),
            ev == ControlEvent::Key(InputKey::PauseToggle) && !old(self)@.timer.paused
                ==> final(self)@.timer == old(self)@.timer.pause_model() && r == (StepResult {
                clear_first: false,
                render: RenderCmd::PausedBanner,
                deadline: DeadlineCmd::Suspend,
                announce: None,
                outcome: LoopOutcome::Continue,
            }),
            ev == ControlEvent::Resize ==> final(self)@ == old(self)@ && r == (StepResult {
                clear_first: true,
                render: if old(self)@.timer.paused {
                    RenderCmd::PausedBanner
                } else {
                    RenderCmd::Countdown(old(self)@.timer.display_model() as u64)
                },
                deadline: DeadlineCmd::Keep,
                announce: None,
                outcome: LoopOutcome::Continue,
            }),
    {
        match ev {
            ControlEvent::Tick => {
                if self.timer.is_paused() {
                    StepResult {
                        clear_first: false,
                        render: RenderCmd::NoRender,
                        deadline: DeadlineCmd::Keep,
                        announce: None,
                        outcome: LoopOutcome::Continue,
                    }
                } else {
                    self.timer.tick();
                    StepResult {
                        clear_first: false,
                        render: RenderCmd::Countdown(self.timer.display_duration()),
                        deadline: DeadlineCmd::Keep,
                        announce: self.announce_now(),
                        outcome: LoopOutcome::Continue,
                    }
                }
            },
            ControlEvent::DeadlineFired => StepResult {
                clear_first: false,
                render: RenderCmd::NoRender,
                deadline: DeadlineCmd::Keep,
                announce: None,
                outcome: LoopOutcome::Expired,
            },
            ControlEvent::Key(InputKey::Quit) => StepResult {
                clear_first: false,
                render: RenderCmd::NoRender,
                deadline: DeadlineCmd::Keep,
                announce: None,
                outcome: LoopOutcome::Quit,
            },
            ControlEvent::Key(InputKey::Other) => StepResult {
                clear_first: false,
                render: RenderCmd::NoRender,
                deadline: DeadlineCmd::Keep,
                announce: None,
                outcome: LoopOutcome::Continue,
            },
            ControlEvent::Key(InputKey::PauseToggle) => {
                if self.timer.is_paused() {
                    self.timer.resume();
                    StepResult {
                        clear_first: false,
                        render: RenderCmd::Countdown(self.timer.display_duration()),
                        deadline: DeadlineCmd::Reschedule(self.timer.remaining_duration()),
                        announce: None,
                        outcome: LoopOutcome::Continue,
                    }
                } else {
                    self.timer.pause();
                    StepResult {
                        clear_first: false,
                        render: RenderCmd::PausedBanner,
                        deadline: DeadlineCmd::Suspend,
                        announce: None,
                        outcome: LoopOutcome::Continue,
                    }
                }
            },
            ControlEvent::Resize => StepResult {
                clear_first: true,
                render: if self.timer.is_paused() {
                    RenderCmd::PausedBanner
                } else {
                    RenderCmd::Countdown(self.timer.display_duration())
                },
                deadline: DeadlineCmd::Keep,
                announce: None,
                outcome: LoopOutcome::Continue,
            },
        }
    }
}

} // verus!
