use evoos_kernel::phase::{Event, Instruction, Phase};

/// The phase after each turn of an execution from `start`.
fn phases_of(start: Phase, events: &[Event]) -> Vec<Phase> {
    let mut phase = start;
    let mut seen = Vec::new();
    for event in events {
        phase = phase.step(*event);
        seen.push(phase);
    }
    seen
}

fn turns(count: usize) -> Vec<Event> {
    vec![Event::Proceed; count]
}

#[test]
fn boot_reaches_idle_with_its_first_turn() {
    let seen = phases_of(Phase::at_entry(), &turns(1));
    assert_eq!(seen, vec![Phase::Idle]);
}

#[test]
fn idle_loop_goes_on_for_ten_thousand_turns() {
    let seen = phases_of(Phase::at_entry(), &turns(10_000));
    assert_eq!(seen.len(), 10_000);
    for phase in seen {
        assert_eq!(phase, Phase::Idle);
        assert_eq!(phase.instruction(), Some(Instruction::Sleep));
    }
}

#[test]
fn panic_loop_goes_on_whatever_happens() {
    let mut events = turns(5_000);
    events.push(Event::Fault);
    events.extend(turns(5_000));
    events.push(Event::Fault);
    events.push(Event::Fault);
    let seen = phases_of(Phase::at_panic(), &events);
    assert_eq!(seen.len(), 10_003);
    for phase in seen {
        assert_eq!(phase, Phase::Panicked);
        assert_eq!(phase.instruction(), Some(Instruction::Spin));
    }
}

#[test]
fn fault_before_the_idle_loop_shows_the_panic_signature() {
    let phase = Phase::at_entry().step(Event::Fault);
    let seen = phase.instruction();
    assert_eq!(seen, Some(Instruction::Spin));
    assert_ne!(seen, Phase::Idle.instruction());
    assert_eq!(seen.unwrap().phase(), Phase::Panicked);
}

#[test]
fn fault_in_the_idle_loop_is_fatal() {
    let events = [
        Event::Proceed,
        Event::Proceed,
        Event::Proceed,
        Event::Fault,
        Event::Proceed,
        Event::Proceed,
    ];
    let seen = phases_of(Phase::at_entry(), &events);
    assert_eq!(
        seen,
        vec![
            Phase::Idle,
            Phase::Idle,
            Phase::Idle,
            Phase::Panicked,
            Phase::Panicked,
            Phase::Panicked,
        ]
    );
}

#[test]
fn fault_is_fatal_from_every_start_and_at_every_turn() {
    for start in [Phase::Boot, Phase::Idle, Phase::Panicked] {
        let mut at: usize = 0;
        while at < 8 {
            let mut events = turns(8);
            events[at] = Event::Fault;
            let seen = phases_of(start, &events);
            assert_eq!(seen[7], Phase::Panicked);
            assert_eq!(seen[at], Phase::Panicked);
            at += 1;
        }
    }
}

#[test]
fn boots_of_different_length_end_alike() {
    let short = phases_of(Phase::at_entry(), &turns(1));
    let long = phases_of(Phase::at_entry(), &turns(777));
    assert_eq!(short[0], long[776]);
    assert_eq!(short[0].instruction(), long[776].instruction());
    assert_eq!(long[776], Phase::Idle);
}

#[test]
fn the_same_boot_twice_gives_the_same_phases() {
    let first = phases_of(Phase::at_entry(), &turns(64));
    let second = phases_of(Phase::at_entry(), &turns(64));
    assert_eq!(first, second);
}
