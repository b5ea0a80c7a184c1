//! Phases of early boot, the events that move between them, and the
//! instruction by which each loop can be told from outside.

use vstd::prelude::*;

verus! {

/// Where the processor stands.
#[derive(Clone, Copy, Debug, PartialEq, Eq, Structural)]
pub enum Phase {
    /// The loader has handed over control and the idle loop is not yet reached.
    /// Nothing is assumed to be ready: no heap, no console, no interrupts.
    Boot,
    /// Boot succeeded and there is nothing to do.
    Idle,
    /// An unrecoverable fault was raised; only a hardware reset leads on.
    Panicked,
}

/// What ends a turn.
#[derive(Clone, Copy, Debug, PartialEq, Eq, Structural)]
pub enum Event {
    /// The turn's work is done and control goes on: initialisation has
    /// finished, or a loop's instruction has retired.
    Proceed,
    /// The runtime has detected an unrecoverable fault.
    Fault,
}

/// What one turn of a loop executes. It is also what a debugger finds the
/// processor doing when it looks.
#[derive(Clone, Copy, Debug, PartialEq, Eq, Structural)]
pub enum Instruction {
    /// The platform's power-saving wait for the next interrupt.
    Sleep,
    /// A busy wait.
    Spin,
}

impl Phase {
    /// The phase that follows `self` when a turn ends with `event`.
    ///
    /// A fault leads to `Panicked` from everywhere. Otherwise boot leads to
    /// the idle loop, and each loop goes on with itself.
    pub open spec fn after(self, event: Event) -> Phase {
        match event {
            Event::Fault => Phase::Panicked,
            Event::Proceed => match self {
                Phase::Boot => Phase::Idle,
                Phase::Idle => Phase::Idle,
                Phase::Panicked => Phase::Panicked,
            },
        }
    }

    /// The instruction that a loop in this phase executes turn after turn, by
    /// which the phase is known from outside. Boot runs no loop.
    pub open spec fn signature(self) -> Option<Instruction> {
        match self {
            Phase::Boot => None,
            Phase::Idle => Some(Instruction::Sleep),
            Phase::Panicked => Some(Instruction::Spin),
        }
    }

    /// Whether this phase is one of the two that are never left for another.
    pub open spec fn is_terminal(self) -> bool {
        self != Phase::Boot
    }

    /// The phase in which the loader's jump arrives.
    pub fn at_entry() -> (phase: Phase)
        ensures
            phase == Phase::Boot,
    {
        Phase::Boot
    }

    /// The phase in which the panic handler starts. The handler is not told
    /// where the fault was raised and need not know: a fault leads here from
    /// every phase.
    pub fn at_panic() -> (phase: Phase)
        ensures
            phase == Phase::Panicked,
            forall|before: Phase| #[trigger] before.after(Event::Fault) == phase,
    {
        Phase::Panicked
    }

    /// The instruction to execute in this phase before the next call of
    /// [`Phase::step`], or `None` where the phase runs no loop.
    pub fn instruction(self) -> (instruction: Option<Instruction>)
        ensures
            instruction == self.signature(),
    {
        match self {
            Phase::Boot => None,
            Phase::Idle => Some(Instruction::Sleep),
            Phase::Panicked => Some(Instruction::Spin),
        }
    }

    /// The phase that follows `self` when a turn ends with `event`.
    pub fn step(self, event: Event) -> (next: Phase)
        ensures
            next == self.after(event),
    {
        match event {
            Event::Fault => Phase::Panicked,
            Event::Proceed => match self {
                Phase::Boot => Phase::Idle,
                other => other,
            },
        }
    }
}

impl Instruction {
    /// The phase of a processor that is found executing `self` in a loop.
    pub open spec fn shows(self) -> Phase {
        match self {
            Instruction::Sleep => Phase::Idle,
            Instruction::Spin => Phase::Panicked,
        }
    }

    /// Reads the phase off the instruction that the processor is found
    /// executing: the one phase that has `self` as its signature.
    pub fn phase(self) -> (phase: Phase)
        ensures
            phase == self.shows(),
            phase.signature() == Some(self),
            forall|other: Phase| #[trigger] other.signature() == Some(self) ==> other == phase,
    {
        match self {
            Instruction::Sleep => Phase::Idle,
            Instruction::Spin => Phase::Panicked,
        }
    }
}

/// Two different phases never look the same from outside. In particular the
/// idle loop and the panic loop, which both run for ever in silence, execute
/// different instructions.
pub proof fn law_phases_are_told_apart(first: Phase, second: Phase)
    requires
        first != second,
    ensures
        first.signature() != second.signature(),
{
}

/// What is read off a loop's instruction is the phase that runs the loop.
pub proof fn law_inspection_finds_the_phase(phase: Phase)
    requires
        phase.is_terminal(),
    ensures
        phase.signature() is Some,
        phase.signature().unwrap().shows() == phase,
{
}

} // verus!
