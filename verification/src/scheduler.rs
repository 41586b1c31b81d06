//! The scheduler: one cycle after the other, an interval apart, until a
//! cycle fails or the process is told to stop.
//!
//! The scheduler neither runs a cycle nor sleeps. It names what to do next
//! and takes the news of what happened.

use crate::config::Config;
use crate::cycle::{CycleOutcome, CycleOutcomeView};
use vstd::prelude::*;

verus! {

/// Where the scheduler stands. It is running in `Cycling` and in `Waiting`.
#[derive(Debug, Clone, Copy, PartialEq, Eq, Structural)]
pub enum SchedulerState {
    /// Running: a cycle is under way.
    Cycling,
    /// Running: the interval between two cycles is passing.
    Waiting,
    /// Stopped, for good.
    Stopped,
}

/// What the scheduler asks for.
#[derive(Debug, Clone, Copy, PartialEq, Eq, Structural)]
pub enum SchedulerAction {
    /// Run one cycle now and report how it ended.
    RunCycle,
    /// Wait `secs` seconds, or until told to shut down, and report which
    /// came first.
    Wait { secs: u64 },
    /// Leave: the scheduler has stopped.
    Exit,
}

/// What the scheduler is told.
#[derive(Debug, PartialEq, Eq)]
pub enum SchedulerEvent {
    /// The cycle that was asked for has ended.
    CycleEnded { outcome: CycleOutcome },
    /// The interval has passed.
    IntervalElapsed,
    /// The process was told to shut down.
    ShutdownRequested,
}

pub enum SchedulerEventView {
    CycleEnded { outcome: CycleOutcomeView },
    IntervalElapsed,
    ShutdownRequested,
}

impl View for SchedulerEvent {
    type V = SchedulerEventView;

    open spec fn view(&self) -> SchedulerEventView {
        match self {
            SchedulerEvent::CycleEnded { outcome } => SchedulerEventView::CycleEnded {
                outcome: outcome@,
            },
            SchedulerEvent::IntervalElapsed => SchedulerEventView::IntervalElapsed,
            SchedulerEvent::ShutdownRequested => SchedulerEventView::ShutdownRequested,
        }
    }
}

/// The scheduler of one process.
#[derive(Debug, Clone, Copy, PartialEq, Eq, Structural)]
pub struct Scheduler {
    /// The seconds between two cycles.
    pub interval_secs: u64,
    pub state: SchedulerState,
    /// How many cycles have been asked for so far; the count stays at
    /// `u64::MAX` once it has got there.
    pub cycles: u64,
}

/// A scheduler that has just asked for its first cycle.
pub open spec fn started(interval_secs: u64) -> Scheduler {
    Scheduler { interval_secs, state: SchedulerState::Cycling, cycles: 1 }
}

/// One more cycle, counted.
pub open spec fn one_more(cycles: u64) -> u64 {
    if cycles < u64::MAX {
        (cycles + 1) as u64
    } else {
        cycles
    }
}

/// One step of the scheduler: where it stands after `event`, and what it
/// asks for.
///
/// While a cycle is under way, only its end is taken notice of: after a
/// cycle that did not fail the scheduler waits for the interval, after one
/// that failed it stops. While the interval is passing, its end brings the
/// next cycle and a request to shut down stops the scheduler. Any other
/// event, and every event once the scheduler has stopped, changes nothing
/// and asks for nothing.
pub open spec fn scheduler_step(s: Scheduler, event: SchedulerEventView) -> (
    Scheduler,
    Option<SchedulerAction>,
) {
    match (s.state, event) {
        (SchedulerState::Cycling, SchedulerEventView::CycleEnded { outcome }) => if outcome
            is Failed {
            (Scheduler { state: SchedulerState::Stopped, ..s }, Some(SchedulerAction::Exit))
        } else {
            (
                Scheduler { state: SchedulerState::Waiting, ..s },
                Some(SchedulerAction::Wait { secs: s.interval_secs }),
            )
        },
        (SchedulerState::Waiting, SchedulerEventView::IntervalElapsed) => (
            Scheduler { state: SchedulerState::Cycling, cycles: one_more(s.cycles), ..s },
            Some(SchedulerAction::RunCycle),
        ),
        (SchedulerState::Waiting, SchedulerEventView::ShutdownRequested) => (
            Scheduler { state: SchedulerState::Stopped, ..s },
            Some(SchedulerAction::Exit),
        ),
        _ => (s, None),
    }
}

impl Scheduler {
    /// Whether the scheduler is running.
    pub open spec fn running(self) -> bool {
        self.state != SchedulerState::Stopped
    }

    /// Whether the scheduler is running.
    pub fn is_running(&self) -> (r: bool)
        ensures
            r == self.running(),
    {
        match self.state {
            SchedulerState::Stopped => false,
            _ => true,
        }
    }

    /// Starts the scheduler for `config`. The first thing it asks for is a
    /// cycle: nothing is waited for before it.
    pub fn start(config: &Config) -> (r: (Scheduler, SchedulerAction))
        ensures
            r.0 == started(config.update_interval_secs),
            r.1 == SchedulerAction::RunCycle,
    {
        (
            Scheduler {
                interval_secs: config.update_interval_secs,
                state: SchedulerState::Cycling,
                cycles: 1,
            },
            SchedulerAction::RunCycle,
        )
    }

    /// Takes the scheduler one step on.
    pub fn step(self, event: &SchedulerEvent) -> (r: (Scheduler, Option<SchedulerAction>))
        ensures
            r == scheduler_step(self, event@),
    {
        match self.state {
            SchedulerState::Cycling => match event {
                SchedulerEvent::CycleEnded { outcome } => if outcome.is_failure() {
                    (
                        Scheduler {
                            interval_secs: self.interval_secs,
                            state: SchedulerState::Stopped,
                            cycles: self.cycles,
                        },
                        Some(SchedulerAction::Exit),
                    )
                } else {
                    (
                        Scheduler {
                            interval_secs: self.interval_secs,
                            state: SchedulerState::Waiting,
                            cycles: self.cycles,
                        },
                        Some(SchedulerAction::Wait { secs: self.interval_secs }),
                    )
                },
                _ => (self, None),
            },
            SchedulerState::Waiting => match event {
                SchedulerEvent::IntervalElapsed => (
                    Scheduler {
                        interval_secs: self.interval_secs,
                        state: SchedulerState::Cycling,
                        cycles: if self.cycles < u64::MAX {
                            self.cycles + 1
                        } else {
                            self.cycles
                        },
                    },
                    Some(SchedulerAction::RunCycle),
                ),
                SchedulerEvent::ShutdownRequested => (
                    Scheduler {
                        interval_secs: self.interval_secs,
                        state: SchedulerState::Stopped,
                        cycles: self.cycles,
                    },
                    Some(SchedulerAction::Exit),
                ),
                _ => (self, None),
            },
            SchedulerState::Stopped => (self, None),
        }
    }
}

/// What an action adds to the list of things asked for.
pub open spec fn asked_for(action: Option<SchedulerAction>) -> Seq<SchedulerAction> {
    match action {
        Some(action) => seq![action],
        None => Seq::empty(),
    }
}

/// Where the scheduler stands after the events `events`.
pub open spec fn scheduler_run(s: Scheduler, events: Seq<SchedulerEventView>) -> Scheduler
    decreases events.len(),
{
    if events.len() == 0 {
        s
    } else {
        scheduler_run(scheduler_step(s, events[0]).0, events.drop_first())
    }
}

/// What the scheduler asks for, in order, while it is told `events`.
pub open spec fn scheduler_actions(s: Scheduler, events: Seq<SchedulerEventView>) -> Seq<
    SchedulerAction,
>
    decreases events.len(),
{
    if events.len() == 0 {
        Seq::empty()
    } else {
        let (next, action) = scheduler_step(s, events[0]);
        asked_for(action) + scheduler_actions(next, events.drop_first())
    }
}

/// A scheduler that has stopped stays as it is and asks for nothing more,
/// whatever it is told.
pub proof fn lemma_stopped_is_final(s: Scheduler, events: Seq<SchedulerEventView>)
    requires
        s.state == SchedulerState::Stopped,
    ensures
        scheduler_run(s, events) == s,
        scheduler_actions(s, events) == Seq::<SchedulerAction>::empty(),
    decreases events.len(),
{
    if events.len() > 0 {
        lemma_stopped_is_final(s, events.drop_first());
        assert(asked_for(None) + Seq::<SchedulerAction>::empty() =~= Seq::<
            SchedulerAction,
        >::empty());
    }
}

/// One failed cycle stops the scheduler for good. The scheduler leaves at
/// once; whatever it is told afterwards, it asks for no further cycle, nor
/// for anything else, and the count of its cycles stays where it was.
pub proof fn lemma_failure_stops_for_good(
    s: Scheduler,
    outcome: CycleOutcomeView,
    later: Seq<SchedulerEventView>,
)
    requires
        s.state == SchedulerState::Cycling,
        outcome is Failed,
    ensures
        ({
            let (stopped, action) = scheduler_step(s, SchedulerEventView::CycleEnded { outcome });
            &&& action == Some(SchedulerAction::Exit)
            &&& stopped == Scheduler { state: SchedulerState::Stopped, ..s }
            &&& scheduler_run(stopped, later) == stopped
            &&& scheduler_actions(stopped, later) == Seq::<SchedulerAction>::empty()
        }),
{
    let stopped = scheduler_step(s, SchedulerEventView::CycleEnded { outcome }).0;
    lemma_stopped_is_final(stopped, later);
}

/// A scheduler whose first cycle fails has run that one cycle and no other.
pub proof fn lemma_first_failure_leaves_one_cycle(
    interval_secs: u64,
    outcome: CycleOutcomeView,
    later: Seq<SchedulerEventView>,
)
    requires
        outcome is Failed,
    ensures
        scheduler_run(
            started(interval_secs),
            seq![SchedulerEventView::CycleEnded { outcome }] + later,
        ).cycles == 1,
        scheduler_actions(
            started(interval_secs),
            seq![SchedulerEventView::CycleEnded { outcome }] + later,
        ) == seq![SchedulerAction::Exit],
{
    let s = started(interval_secs);
    let events = seq![SchedulerEventView::CycleEnded { outcome }] + later;
    lemma_failure_stops_for_good(s, outcome, later);
    assert(events.drop_first() =~= later);
    assert(events[0] == SchedulerEventView::CycleEnded { outcome });
    assert(asked_for(Some(SchedulerAction::Exit)) + Seq::<SchedulerAction>::empty() =~= seq![
        SchedulerAction::Exit,
    ]);
}

/// A cycle is asked for only when the interval has passed: never while
/// another cycle is under way, and never once the scheduler has stopped.
pub proof fn lemma_cycles_follow_the_interval(s: Scheduler, event: SchedulerEventView)
    ensures
        scheduler_step(s, event).1 == Some(SchedulerAction::RunCycle) <==> s.state
            == SchedulerState::Waiting && event is IntervalElapsed,
{
}

} // verus!
