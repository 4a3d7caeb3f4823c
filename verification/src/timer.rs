//! The timer session state machine: total and remaining seconds, a display
//! mode, and a paused flag, mutated only by `tick`, `pause` and `resume`.
use vstd::prelude::*;

verus! {

/// Whether the visible value runs down toward zero or up toward the total.
#[derive(Clone, Copy, Debug, PartialEq, Eq, Structural)]
pub enum TimerMode {
    CountDown,
    CountUp,
}

/// Mathematical model of a timer session; every contract on
/// [`CountdownState`] speaks of this view.
pub struct TimerModel {
    pub total: u64,
    pub remaining: u64,
    pub mode: TimerMode,
    pub paused: bool,
}

impl TimerModel {
    /// The session invariant: the remaining time never exceeds the total.
    pub open spec fn wf(self) -> bool {
        self.remaining <= self.total
    }

    /// One tick: a no-op while paused, otherwise one second comes off
    /// `remaining`, floored at zero.
    pub open spec fn tick_model(self) -> TimerModel {
        if self.paused {
            self
        } else {
            TimerModel {
                remaining: if self.remaining >= 1 { (self.remaining - 1) as u64 } else { 0u64 },
                ..self
            }
        }
    }

    pub open spec fn pause_model(self) -> TimerModel {
        TimerModel { paused: true, ..self }
    }

    pub open spec fn resume_model(self) -> TimerModel {
        TimerModel { paused: false, ..self }
    }

    /// The externally displayed value: `remaining` when counting down,
    /// elapsed time (`total - remaining`) when counting up.
    pub open spec fn display_model(self) -> int {
        match self.mode {
            TimerMode::CountDown => self.remaining as int,
            TimerMode::CountUp => self.total - self.remaining,
        }
    }
}

/// The mutable timer session record. All durations are whole seconds.
#[derive(Debug)]
pub struct CountdownState {
    total_duration: u64,
    remaining_duration: u64,
    mode: TimerMode,
    paused: bool,
}

impl View for CountdownState {
    type V = TimerModel;

    closed spec fn view(&self) -> TimerModel {
        TimerModel {
            total: self.total_duration,
            remaining: self.remaining_duration,
            mode: self.mode,
            paused: self.paused,
        }
    }
}

impl CountdownState {
    /// Start a session: the full duration remains, not paused.
    pub fn new(duration: u64, mode: TimerMode) -> (s: Self)
        ensures
            s@ == (TimerModel { total: duration, remaining: duration, mode, paused: false }),
            s@.wf(),
    {
        Self { total_duration: duration, remaining_duration: duration, mode, paused: false }
    }

    /// Subtract one second from the remaining time, floored at zero; a no-op
    /// while paused.
    pub fn tick(&mut self)
        ensures
            final(self)@ == old(self)@.tick_model(),
            old(self)@.wf() ==> final(self)@.wf(),
    {
        if self.paused {
            return ;
        }
        if self.remaining_duration > 1 {
            self.remaining_duration = self.remaining_duration - 1;
        } else {
            self.remaining_duration = 0;
        }
    }

    /// Mark the session paused; idempotent.
    pub fn pause(&mut self)
        ensures
            final(self)@ == old(self)@.pause_model(),
            old(self)@.wf() ==> final(self)@.wf(),
    {
        if !self.paused {
            self.paused = true;
        }
    }

    /// Mark the session running again; idempotent.
    pub fn resume(&mut self)
        ensures
            final(self)@ == old(self)@.resume_model(),
            old(self)@.wf() ==> final(self)@.wf(),
    {
        if self.paused {
            self.paused = false;
        }
    }

    pub fn is_paused(&self) -> (p: bool)
        ensures
            p == self@.paused,
    {
        self.paused
    }

    /// The value the renderer shows for this state.
    pub fn display_duration(&self) -> (d: u64)
        requires
            self@.wf(),
        ensures
            d == self@.display_model(),
    {
        match self.mode {
            TimerMode::CountDown => self.remaining_duration,
            TimerMode::CountUp => self.total_duration - self.remaining_duration,
        }
    }

    pub fn remaining_duration(&self) -> (r: u64)
        ensures
            r == self@.remaining,
    {
        self.remaining_duration
    }

    pub fn mode(&self) -> (m: TimerMode)
        ensures
            m == self@.mode,
    {
        self.mode
    }

    pub fn total_duration(&self) -> (t: u64)
        ensures
            t == self@.total,
    {
        self.total_duration
    }
}

/// One of the three operations a running session is mutated by.
#[derive(Clone, Copy, Debug, PartialEq, Eq, Structural)]
pub enum TimerOp {
    Tick,
    Pause,
    Resume,
}

pub open spec fn apply_op(m: TimerModel, op: TimerOp) -> TimerModel {
    match op {
        TimerOp::Tick => m.tick_model(),
        TimerOp::Pause => m.pause_model(),
        TimerOp::Resume => m.resume_model(),
    }
}

pub open spec fn apply_ops(m: TimerModel, ops: Seq<TimerOp>) -> TimerModel
    decreases ops.len(),
{
    if ops.len() == 0 {
        m
    } else {
        apply_ops(apply_op(m, ops[0]), ops.drop_first())
    }
}

/// No single operation breaks the invariant `remaining <= total`.
pub proof fn lemma_op_preserves_wf(m: TimerModel, op: TimerOp)
    requires
        m.wf(),
    ensures
        apply_op(m, op).wf(),
{
}

/// After any sequence of `tick`/`pause`/`resume` operations on a well-formed
/// session, every intermediate state (and so the final one) satisfies
/// `0 <= remaining <= total`.
pub proof fn lemma_ops_preserve_wf(m: TimerModel, ops: Seq<TimerOp>)
    requires
        m.wf(),
    ensures
        forall|i: int| 0 <= i <= ops.len() ==> #[trigger] apply_ops(m, ops.take(i)).wf(),
    decreases ops.len(),
{
    assert(ops.take(0) =~= Seq::<TimerOp>::empty());
    if ops.len() > 0 {
        lemma_op_preserves_wf(m, ops[0]);
        lemma_ops_preserve_wf(apply_op(m, ops[0]), ops.drop_first());
        assert forall|i: int| 0 < i <= ops.len() implies #[trigger] apply_ops(
            m,
            ops.take(i),
        ).wf() by {
            assert(ops.take(i).drop_first() =~= ops.drop_first().take(i - 1));
            assert(apply_ops(m, ops.take(i)) == apply_ops(
                apply_op(m, ops[0]),
                ops.drop_first().take(i - 1),
            ));
        }
    }
}

/// The state after `k` consecutive ticks.
pub open spec fn apply_ticks(m: TimerModel, k: nat) -> TimerModel
    decreases k,
{
    if k == 0 {
        m
    } else {
        apply_ticks(m.tick_model(), (k - 1) as nat)
    }
}

/// Ticking an unpaused session `k` times takes `k` seconds off the
/// remaining time, floored at zero, and touches nothing else; in
/// particular, a session started at `n` reaches zero after `n` ticks.
pub proof fn lemma_ticks_count_down(m: TimerModel, k: nat)
    requires
        !m.paused,
    ensures
        apply_ticks(m, k).remaining as int == if m.remaining >= k {
            m.remaining - k
        } else {
            0
        },
        !apply_ticks(m, k).paused,
        apply_ticks(m, k).total == m.total,
        apply_ticks(m, k).mode == m.mode,
    decreases k,
{
    if k > 0 {
        lemma_ticks_count_down(m.tick_model(), (k - 1) as nat);
    }
}

/// Pausing twice in a row leaves the state exactly as pausing once does, and
/// likewise for resuming.
pub proof fn lemma_pause_resume_idempotent(m: TimerModel)
    ensures
        m.pause_model().pause_model() == m.pause_model(),
        m.resume_model().resume_model() == m.resume_model(),
{
}

/// A tick on a paused session changes nothing at all.
pub proof fn lemma_tick_while_paused(m: TimerModel)
    requires
        m.paused,
    ensures
        m.tick_model() == m,
{
}

/// On two states with the same `remaining` and `total`, the count-up display
/// and the count-down display sum to the total.
pub proof fn lemma_display_modes_sum(down: TimerModel, up: TimerModel)
    requires
        down.wf(),
        up.wf(),
        down.mode == TimerMode::CountDown,
        up.mode == TimerMode::CountUp,
        down.remaining == up.remaining,
        down.total == up.total,
    ensures
        down.display_model() + up.display_model() == down.total,
{
}

} // verus!
