//! Behavioral tests for the state core, driven entirely through the public
//! `StateOwner` interface.

use state_core::Command;
use state_core::Event;
use state_core::Snapshot;
use state_core::StateOwner;

#[test]
fn initial_snapshots_agree() {
    // Two independently constructed owners start from the same initial
    // condition: their snapshots are identical.
    let a = StateOwner::new();
    let b = StateOwner::new();
    assert_eq!(a.snapshot(), b.snapshot());
}

#[test]
fn default_matches_new() {
    let a = StateOwner::default();
    let b = StateOwner::new();
    assert_eq!(a.snapshot(), b.snapshot());
}

#[test]
fn noop_returns_single_marker() {
    let mut owner = StateOwner::new();
    let events = owner.apply_command(Command::Noop);
    assert_eq!(events, vec![Event::NoopApplied]);
}

#[test]
fn noop_leaves_state_unchanged() {
    // A command that represents "no change" mutates nothing and records
    // only no-op markers.
    let mut owner = StateOwner::new();
    let before = owner.snapshot();
    let events = owner.apply_command(Command::Noop);
    let after = owner.snapshot();
    assert_eq!(before, after);
    for event in &events {
        assert!(matches!(event, Event::NoopApplied));
    }
}

#[test]
fn snapshot_unchanged_by_later_commands() {
    // A snapshot taken earlier is an independent value: applying further
    // commands never alters it.
    let mut owner = StateOwner::new();
    let taken = owner.snapshot();
    let witness = taken.clone();
    owner.apply_command(Command::Noop);
    owner.apply_command(Command::Noop);
    assert_eq!(taken, witness);
}

#[test]
fn replaying_same_sequence_is_deterministic() {
    // Replaying one command sequence against two fresh owners yields
    // identical event logs and identical final snapshots.
    let sequence = vec![Command::Noop, Command::Noop, Command::Noop];

    let mut first = StateOwner::new();
    let mut first_log: Vec<Event> = Vec::new();
    for command in sequence.clone() {
        first_log.extend(first.apply_command(command));
    }

    let mut second = StateOwner::new();
    let mut second_log: Vec<Event> = Vec::new();
    for command in sequence {
        second_log.extend(second.apply_command(command));
    }

    assert_eq!(first_log, second_log);
    assert_eq!(first.snapshot(), second.snapshot());
}

#[test]
fn event_log_preserves_application_order() {
    // The concatenated log of sequential applications holds one entry per
    // command, in application order.
    let mut owner = StateOwner::new();
    let mut log: Vec<Event> = Vec::new();
    log.extend(owner.apply_command(Command::Noop));
    log.extend(owner.apply_command(Command::Noop));
    assert_eq!(log, vec![Event::NoopApplied, Event::NoopApplied]);
}

#[test]
fn snapshot_is_plain_value() {
    let owner = StateOwner::new();
    let snapshot: Snapshot = owner.snapshot();
    let copy = snapshot.clone();
    assert_eq!(snapshot, copy);
}
