//! The state core: the authoritative state, the command / event / snapshot
//! vocabulary, and the owner handle that is the runtime's sole way in.
//!
//! The concrete command and event vocabulary is a domain plug-in: the core
//! fixes the contract shape that any vocabulary must satisfy, and until a
//! domain fills it in, the closed variant sets hold only the neutral no-op
//! command and its marker event. Every contract below is stated against one
//! spec-level state machine (`init_model`, `step`, `step_events`,
//! `snapshot_of`), so that determinism and totality are pinned down
//! independently of the eventual domain.

use vstd::prelude::*;

verus! {

/// Authoritative machine state: the single mutable representation of the
/// system's truth. It is private to this module; code outside reaches it
/// only through `StateOwner`, and only via `apply_command` and `snapshot`.
struct MachineState {
    // State fields will be added here
}

/// A command: an inert, immutable description of one intended mutation,
/// produced by the runtime shell and consumed exactly once. The variant set
/// is closed and matched exhaustively, so adding a variant is a
/// compile-time-visible change at every match site.
#[derive(Debug, Clone, PartialEq, Eq, Structural)]
pub enum Command {
    /// The neutral command: request no change under the current state.
    Noop,
}

/// An immutable copy of the externally relevant state, structurally
/// independent of the authoritative state: mutating the state after a
/// snapshot was taken never alters the snapshot, and vice versa.
#[derive(Debug, Clone, PartialEq, Eq, Structural)]
pub struct Snapshot {
    // Snapshot fields will be added here
}

/// An event: an inert fact describing something that did happen as a result
/// of applying a command — never an intention. The variant set is closed.
#[derive(Debug, Clone, PartialEq, Eq, Structural)]
pub enum Event {
    /// Marker recording that a command was applied and changed nothing.
    NoopApplied,
}

/// The mathematical model of the authoritative state. The state currently
/// carries no fields, so neither does the model; it exists so that every
/// contract of the core speaks of one spec-level state machine.
pub ghost struct StateModel {
}

/// The initial model: the well-defined starting condition that
/// `MachineState::new` (and `StateOwner::new`) establishes.
pub open spec fn init_model() -> StateModel {
    StateModel {}
}

/// The transition function of the spec-level state machine: the model after
/// one command is applied. It is total over the command domain.
pub open spec fn step(m: StateModel, c: Command) -> StateModel {
    match c {
        Command::Noop => m,
    }
}

/// The ordered event sequence that one command application records.
pub open spec fn step_events(m: StateModel, c: Command) -> Seq<Event> {
    match c {
        Command::Noop => seq![Event::NoopApplied],
    }
}

/// The snapshot that a given model yields: the externally relevant
/// projection of the state.
pub open spec fn snapshot_of(m: StateModel) -> Snapshot {
    Snapshot {}
}

impl MachineState {
    /// The model this state realizes.
    pub closed spec fn model(&self) -> StateModel {
        StateModel {}
    }

    /// Create the authoritative state in its initial condition. Total,
    /// never fails.
    pub fn new() -> (s: Self)
        ensures
            s.model() == init_model(),
    {
        MachineState {}
    }

    /// Apply a command and return the resulting events, in the order their
    /// effects logically occurred. This is the only mutator of the state:
    /// the new model and the event sequence are functions of the old model
    /// and the command alone, and the function is total over the command
    /// domain — every variant maps to a defined outcome.
    pub fn apply_command(&mut self, cmd: Command) -> (events: Vec<Event>)
        ensures
            final(self).model() == step(old(self).model(), cmd),
            events@ == step_events(old(self).model(), cmd),
    {
        match cmd {
            Command::Noop => {
                let mut events: Vec<Event> = Vec::new();
                events.push(Event::NoopApplied);
                proof {
                    assert(events@ =~= seq![Event::NoopApplied]);
                }
                events
            },
        }
    }

    /// Create a snapshot of the current state: pure, read-only, with no
    /// effect on subsequent `apply_command` results.
    pub fn snapshot(&self) -> (s: Snapshot)
        ensures
            s == snapshot_of(self.model()),
    {
        Snapshot {}
    }
}

impl Default for MachineState {
    fn default() -> (s: Self)
        ensures
            s.model() == init_model(),
    {
        Self::new()
    }
}

/// The runtime's sole handle onto the authoritative state. It owns exactly
/// one `MachineState` for its entire lifetime and exposes exactly two
/// operations on it: apply a command and take a snapshot. It never hands out
/// a reference to the state itself — only copies (`Snapshot`) and derived
/// facts (`Event`).
pub struct StateOwner {
    state: MachineState,
}

impl StateOwner {
    /// The model of the owned authoritative state.
    pub closed spec fn model(&self) -> StateModel {
        self.state.model()
    }

    /// Construct an owner together with a fresh authoritative state in its
    /// initial condition. Total, never fails.
    pub fn new() -> (owner: Self)
        ensures
            owner.model() == init_model(),
    {
        StateOwner {
            state: MachineState::new(),
        }
    }

    /// Apply a command to the owned state and return the resulting events
    /// verbatim, in order.
    pub fn apply_command(&mut self, cmd: Command) -> (events: Vec<Event>)
        ensures
            final(self).model() == step(old(self).model(), cmd),
            events@ == step_events(old(self).model(), cmd),
    {
        self.state.apply_command(cmd)
    }

    /// Take a snapshot of the owned state: pure and read-only.
    pub fn snapshot(&self) -> (s: Snapshot)
        ensures
            s == snapshot_of(self.model()),
    {
        self.state.snapshot()
    }
}

impl Default for StateOwner {
    fn default() -> (owner: Self)
        ensures
            owner.model() == init_model(),
    {
        Self::new()
    }
}

} // verus!
