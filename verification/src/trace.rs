//! Whole executions: a phase to start from and the events of the turns that
//! follow, in order. The laws here hold of executions of every length.

use vstd::prelude::*;
use crate::phase::{Event, Instruction, Phase};

verus! {

/// The phase reached from `start` once every event of `events` has happened.
pub open spec fn run(start: Phase, events: Seq<Event>) -> Phase
    decreases events.len(),
{
    if events.len() == 0 {
        start
    } else {
        run(start, events.drop_last()).after(events.last())
    }
}

/// Whether no turn of `events` ends in a fault.
pub open spec fn fault_free(events: Seq<Event>) -> bool {
    forall|i: int| 0 <= i < events.len() ==> events[i] == Event::Proceed
}

/// Boot is left with its first turn and never comes back: the entry code runs
/// once, and from then on the processor is in one of the two loops.
pub proof fn law_boot_is_left_for_good(start: Phase, events: Seq<Event>)
    requires
        events.len() > 0,
    ensures
        run(start, events).is_terminal(),
        run(start, events).signature() is Some,
{
}

/// The idle loop has no way out but a fault: however many turns pass, the
/// phase is still `Idle` and the next turn sleeps again.
pub proof fn law_idle_goes_on(events: Seq<Event>)
    requires
        fault_free(events),
    ensures
        run(Phase::Idle, events) == Phase::Idle,
        run(Phase::Idle, events).signature() == Some(Instruction::Sleep),
    decreases events.len(),
{
    if events.len() > 0 {
        law_idle_goes_on(events.drop_last());
    }
}

/// The panic loop has no way out at all: whatever happens afterwards, a
/// further fault included, the phase is still `Panicked` and the next turn
/// spins again.
pub proof fn law_panic_goes_on(events: Seq<Event>)
    ensures
        run(Phase::Panicked, events) == Phase::Panicked,
        run(Phase::Panicked, events).signature() == Some(Instruction::Spin),
    decreases events.len(),
{
    if events.len() > 0 {
        law_panic_goes_on(events.drop_last());
    }
}

/// An execution without a fault reaches the idle loop with its first turn and
/// stays there.
pub proof fn law_boot_reaches_idle(events: Seq<Event>)
    requires
        events.len() > 0,
        fault_free(events),
    ensures
        run(Phase::Boot, events) == Phase::Idle,
    decreases events.len(),
{
    let earlier = events.drop_last();
    assert(events[events.len() - 1] == Event::Proceed);
    if earlier.len() > 0 {
        law_boot_reaches_idle(earlier);
    } else {
        assert(run(Phase::Boot, earlier) == Phase::Boot);
    }
}

/// Two executions from the loader's jump that meet no fault end in the same
/// phase, with the same instruction, however long each has run.
pub proof fn law_boot_is_deterministic(first: Seq<Event>, second: Seq<Event>)
    requires
        first.len() > 0,
        second.len() > 0,
        fault_free(first),
        fault_free(second),
    ensures
        run(Phase::Boot, first) == run(Phase::Boot, second),
        run(Phase::Boot, first).signature() == run(Phase::Boot, second).signature(),
{
    law_boot_reaches_idle(first);
    law_boot_reaches_idle(second);
}

/// A fault is fatal wherever it is raised: an execution with a fault in it
/// ends in the panic loop, whatever its start and whatever came before or
/// after the fault.
pub proof fn law_fault_is_fatal(start: Phase, events: Seq<Event>, at: int)
    requires
        0 <= at < events.len(),
        events[at] == Event::Fault,
    ensures
        run(start, events) == Phase::Panicked,
        run(start, events).signature() == Some(Instruction::Spin),
    decreases events.len(),
{
    if at < events.len() - 1 {
        law_fault_is_fatal(start, events.drop_last(), at);
    }
}

} // verus!
