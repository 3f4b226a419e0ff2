//! The cooperative event-loop driver, as a verified state machine.
//!
//! The host (the platform layer that owns the native runtime, in either its
//! blocking or its suspension-capable flavour) repeatedly reports whether
//! termination was requested and receives the one host action to perform
//! next: launch the runtime, open or close a scoped native allocation region,
//! run the per-tick application work, poll and dispatch one native event,
//! process window updates, sleep one tick, or halt.  Both loop flavours share
//! this machine; only the meaning of `SleepTick` differs.

use vstd::prelude::*;

verus! {

/// Ticks executed inside one scoped allocation region before it is closed
/// and a fresh one is opened.
pub const TICKS_PER_SCOPE: u64 = 100;

/// The fixed per-tick sleep, in milliseconds.
pub const TICK_MILLIS: u64 = 10;

/// Where the driver stands in its cycle.  The tick counter counts the ticks
/// already begun inside the current allocation region.
#[derive(Clone, Copy, PartialEq, Eq, Structural, Debug)]
pub enum LoopPhase {
    /// The host runtime has not been launched yet.
    Unlaunched,
    /// Between allocation regions: a fresh region must be opened.
    ScopeStart,
    /// At the top of a tick: the termination signal is about to be checked.
    TerminationCheck { ticks_done: u64 },
    /// The tick's application work is done; a native event poll is next.
    EventPoll { ticks_done: u64 },
    /// The event was dispatched; window updates are next.
    WindowUpdate { ticks_done: u64 },
    /// The tick's work is done; the fixed sleep is next.
    TickSleep { ticks_done: u64 },
    /// The region's tick budget is used up: the region must be closed.
    ScopeEnd,
    /// Terminal state: the loop has exited.
    Terminated,
}

/// What the host must do next.
#[derive(Clone, Copy, PartialEq, Eq, Structural, Debug)]
pub enum HostStep {
    /// Initialize the host UI runtime (idempotent; requested exactly once).
    FinishLaunching,
    /// Open a scoped native allocation region.
    OpenScope,
    /// Run the caller-supplied per-tick action: drain the notification
    /// channel and refresh the UI if anything is pending.
    RunTickWork,
    /// Dequeue at most one pending native event with zero wait and dispatch
    /// it if present.
    PollEvent,
    /// Let the host runtime process pending window updates.
    UpdateWindows,
    /// Perform the configured suspension of one tick period.
    SleepTick,
    /// Close the current scoped allocation region.
    CloseScope,
    /// The loop has terminated; stop driving.
    Halt,
}

/// A phase the machine can actually be in: tick counters stay within the
/// region's budget.
pub open spec fn phase_wf(s: LoopPhase) -> bool {
    match s {
        LoopPhase::TerminationCheck { ticks_done } => ticks_done < TICKS_PER_SCOPE,
        LoopPhase::EventPoll { ticks_done } => ticks_done < TICKS_PER_SCOPE,
        LoopPhase::WindowUpdate { ticks_done } => ticks_done < TICKS_PER_SCOPE,
        LoopPhase::TickSleep { ticks_done } => ticks_done < TICKS_PER_SCOPE,
        _ => true,
    }
}

/// The complete transition function: from the current phase and the polled
/// termination flag to the next phase and the action the host performs now.
///
/// Termination is checked once per tick, before the tick's work; a positive
/// check exits both the tick batch and the outer loop at once, without
/// closing the still-open allocation region.  Within a tick the application
/// work always precedes the native event dispatch, which precedes the window
/// update, which precedes the sleep.
pub open spec fn step_spec(s: LoopPhase, terminate_now: bool) -> (LoopPhase, HostStep) {
    match s {
        LoopPhase::Unlaunched => (LoopPhase::ScopeStart, HostStep::FinishLaunching),
        LoopPhase::ScopeStart => (
            LoopPhase::TerminationCheck { ticks_done: 0 },
            HostStep::OpenScope,
        ),
        LoopPhase::TerminationCheck { ticks_done } => if terminate_now {
            (LoopPhase::Terminated, HostStep::Halt)
        } else {
            (LoopPhase::EventPoll { ticks_done }, HostStep::RunTickWork)
        },
        LoopPhase::EventPoll { ticks_done } => (
            LoopPhase::WindowUpdate { ticks_done },
            HostStep::PollEvent,
        ),
        LoopPhase::WindowUpdate { ticks_done } => (
            LoopPhase::TickSleep { ticks_done },
            HostStep::UpdateWindows,
        ),
        LoopPhase::TickSleep { ticks_done } => if ticks_done + 1 == TICKS_PER_SCOPE {
            (LoopPhase::ScopeEnd, HostStep::SleepTick)
        } else {
            (
                LoopPhase::TerminationCheck { ticks_done: (ticks_done + 1) as u64 },
                HostStep::SleepTick,
            )
        },
        LoopPhase::ScopeEnd => (LoopPhase::ScopeStart, HostStep::CloseScope),
        LoopPhase::Terminated => (LoopPhase::Terminated, HostStep::Halt),
    }
}

/// One step keeps the phase well formed.
pub proof fn lemma_step_preserves_wf(s: LoopPhase, terminate_now: bool)
    requires
        phase_wf(s),
    ensures
        phase_wf(step_spec(s, terminate_now).0),
{
}

/// The driver a host loop holds: the state machine with its phase.
pub struct EventLoopDriver {
    phase: LoopPhase,
}

impl EventLoopDriver {
    /// The phase, for contracts.
    pub closed spec fn view(self) -> LoopPhase {
        self.phase
    }

    pub open spec fn wf(self) -> bool {
        phase_wf(self@)
    }

    /// A fresh driver: the host runtime is not launched yet.
    pub fn new() -> (d: EventLoopDriver)
        ensures
            d@ == LoopPhase::Unlaunched,
            d.wf(),
    {
        EventLoopDriver { phase: LoopPhase::Unlaunched }
    }

    /// Advances the machine by one step, handing the host the action to
    /// perform now.  `terminate_now` is the freshly polled termination flag;
    /// it is consulted exactly at the once-per-tick check.
    pub fn next_step(&mut self, terminate_now: bool) -> (a: HostStep)
        requires
            old(self).wf(),
        ensures
            final(self).wf(),
            (final(self)@, a) == step_spec(old(self)@, terminate_now),
    {
        let (phase, action) = match self.phase {
            LoopPhase::Unlaunched => (LoopPhase::ScopeStart, HostStep::FinishLaunching),
            LoopPhase::ScopeStart => (
                LoopPhase::TerminationCheck { ticks_done: 0 },
                HostStep::OpenScope,
            ),
            LoopPhase::TerminationCheck { ticks_done } => if terminate_now {
                (LoopPhase::Terminated, HostStep::Halt)
            } else {
                (LoopPhase::EventPoll { ticks_done }, HostStep::RunTickWork)
            },
            LoopPhase::EventPoll { ticks_done } => (
                LoopPhase::WindowUpdate { ticks_done },
                HostStep::PollEvent,
            ),
            LoopPhase::WindowUpdate { ticks_done } => (
                LoopPhase::TickSleep { ticks_done },
                HostStep::UpdateWindows,
            ),
            LoopPhase::TickSleep { ticks_done } => if ticks_done + 1 == TICKS_PER_SCOPE {
                (LoopPhase::ScopeEnd, HostStep::SleepTick)
            } else {
                (
                    LoopPhase::TerminationCheck { ticks_done: ticks_done + 1 },
                    HostStep::SleepTick,
                )
            },
            LoopPhase::ScopeEnd => (LoopPhase::ScopeStart, HostStep::CloseScope),
            LoopPhase::Terminated => (LoopPhase::Terminated, HostStep::Halt),
        };
        self.phase = phase;
        action
    }

    /// Whether the loop has exited.
    pub fn is_terminated(&self) -> (r: bool)
        ensures
            r == (self@ is Terminated),
    {
        matches!(self.phase, LoopPhase::Terminated)
    }
}

/// The phases and actions of a whole run: starting from `s`, one entry per
/// polled termination flag.
pub open spec fn run_steps(s: LoopPhase, flags: Seq<bool>) -> Seq<(LoopPhase, HostStep)>
    decreases flags.len(),
{
    if flags.len() == 0 {
        Seq::empty()
    } else {
        let step = step_spec(s, flags[0]);
        seq![step] + run_steps(step.0, flags.drop_first())
    }
}

/// A run has one entry per flag.
pub proof fn lemma_run_len(s: LoopPhase, flags: Seq<bool>)
    ensures
        run_steps(s, flags).len() == flags.len(),
    decreases flags.len(),
{
    if flags.len() > 0 {
        lemma_run_len(step_spec(s, flags[0]).0, flags.drop_first());
    }
}

/// Once launched, the machine never asks for `FinishLaunching` again.
pub proof fn lemma_no_relaunch(s: LoopPhase, flags: Seq<bool>)
    requires
        !(s is Unlaunched),
    ensures
        forall|i: int|
            0 <= i < run_steps(s, flags).len() ==> !(#[trigger] run_steps(s, flags)[i].1
                is FinishLaunching),
    decreases flags.len(),
{
    if flags.len() > 0 {
        let step = step_spec(s, flags[0]);
        lemma_no_relaunch(step.0, flags.drop_first());
        assert forall|i: int| 0 <= i < run_steps(s, flags).len() implies !(
        #[trigger] run_steps(s, flags)[i].1 is FinishLaunching) by {
            if i > 0 {
                assert(run_steps(s, flags)[i] == run_steps(step.0, flags.drop_first())[i - 1]);
            }
        }
    }
}

/// Law: in a full run from the initial phase, the host is asked to launch the
/// runtime exactly once, as the very first action.
pub proof fn lemma_launch_exactly_once(flags: Seq<bool>)
    requires
        flags.len() > 0,
    ensures
        run_steps(LoopPhase::Unlaunched, flags)[0].1 is FinishLaunching,
        forall|i: int|
            0 < i < run_steps(LoopPhase::Unlaunched, flags).len() ==> !(
            #[trigger] run_steps(LoopPhase::Unlaunched, flags)[i].1 is FinishLaunching),
{
    let tr = run_steps(LoopPhase::Unlaunched, flags);
    let step = step_spec(LoopPhase::Unlaunched, flags[0]);
    lemma_no_relaunch(step.0, flags.drop_first());
    assert forall|i: int| 0 < i < tr.len() implies !(#[trigger] tr[i].1 is FinishLaunching) by {
        assert(tr[i] == run_steps(step.0, flags.drop_first())[i - 1]);
    }
}

/// The terminal phase absorbs: a terminated machine only ever answers `Halt`.
pub proof fn lemma_terminated_absorbs(flags: Seq<bool>)
    ensures
        forall|i: int|
            0 <= i < run_steps(LoopPhase::Terminated, flags).len() ==> #[trigger] run_steps(
                LoopPhase::Terminated,
                flags,
            )[i] == (LoopPhase::Terminated, HostStep::Halt),
    decreases flags.len(),
{
    if flags.len() > 0 {
        lemma_terminated_absorbs(flags.drop_first());
        assert forall|i: int| 0 <= i < run_steps(LoopPhase::Terminated, flags).len() implies
        #[trigger] run_steps(LoopPhase::Terminated, flags)[i] == (
        LoopPhase::Terminated,
        HostStep::Halt,
        ) by {
            if i > 0 {
                assert(run_steps(LoopPhase::Terminated, flags)[i] == run_steps(
                    LoopPhase::Terminated,
                    flags.drop_first(),
                )[i - 1]);
            }
        }
    }
}

/// Law: termination latency is bounded.  Once the termination flag stays on,
/// any well-formed phase reaches `Terminated` within six steps — the tail of
/// the current tick, at most one region boundary, and the next
/// once-per-tick check.
pub proof fn lemma_prompt_termination(s: LoopPhase, flags: Seq<bool>)
    requires
        phase_wf(s),
        flags.len() >= 6,
        forall|i: int| 0 <= i < flags.len() ==> flags[i],
    ensures
        run_steps(s, flags)[5].0 is Terminated,
{
    reveal_with_fuel(run_steps, 7);
    lemma_run_len(s, flags);
}

/// Law: the per-tick order is fixed.  From a negative termination check, the
/// next four actions are the application tick work, then the native event
/// poll, then the window update, then the sleep — so a UI update triggered by
/// a notification is visible before the next native event is processed.
pub proof fn lemma_tick_order(ticks_done: u64, flags: Seq<bool>)
    requires
        ticks_done < TICKS_PER_SCOPE,
        flags.len() >= 4,
        !flags[0],
    ensures
        run_steps(LoopPhase::TerminationCheck { ticks_done }, flags)[0].1 is RunTickWork,
        run_steps(LoopPhase::TerminationCheck { ticks_done }, flags)[1].1 is PollEvent,
        run_steps(LoopPhase::TerminationCheck { ticks_done }, flags)[2].1 is UpdateWindows,
        run_steps(LoopPhase::TerminationCheck { ticks_done }, flags)[3].1 is SleepTick,
{
    reveal_with_fuel(run_steps, 5);
    lemma_run_len(LoopPhase::TerminationCheck { ticks_done }, flags);
}

/// Law: while no termination is requested the loop keeps cycling — from a
/// fresh start, ten steps in, every kind of tick action has already been
/// asked for at least twice, and the launch only once.
pub proof fn lemma_loop_makes_progress(flags: Seq<bool>)
    requires
        flags.len() >= 10,
        forall|i: int| 0 <= i < flags.len() ==> !flags[i],
    ensures
        run_steps(LoopPhase::Unlaunched, flags)[0].1 is FinishLaunching,
        run_steps(LoopPhase::Unlaunched, flags)[1].1 is OpenScope,
        run_steps(LoopPhase::Unlaunched, flags)[2].1 is RunTickWork,
        run_steps(LoopPhase::Unlaunched, flags)[3].1 is PollEvent,
        run_steps(LoopPhase::Unlaunched, flags)[4].1 is UpdateWindows,
        run_steps(LoopPhase::Unlaunched, flags)[5].1 is SleepTick,
        run_steps(LoopPhase::Unlaunched, flags)[6].1 is RunTickWork,
        run_steps(LoopPhase::Unlaunched, flags)[7].1 is PollEvent,
        run_steps(LoopPhase::Unlaunched, flags)[8].1 is UpdateWindows,
        run_steps(LoopPhase::Unlaunched, flags)[9].1 is SleepTick,
{
    reveal_with_fuel(run_steps, 11);
    lemma_run_len(LoopPhase::Unlaunched, flags);
}

} // verus!
