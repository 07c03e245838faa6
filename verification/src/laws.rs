//! The guarantees of the core, stated and proved over the spec-level state
//! machine: what a replay of a whole command sequence yields, that it is
//! deterministic, and what the neutral no-op vocabulary implies.

use vstd::prelude::*;

use crate::state::Command;
use crate::state::Event;
use crate::state::Snapshot;
use crate::state::StateModel;
use crate::state::init_model;
use crate::state::snapshot_of;
use crate::state::step;
use crate::state::step_events;

verus! {

/// The model reached by replaying a command sequence in order: the left
/// fold of `step` over the sequence.
pub open spec fn replay(m: StateModel, cs: Seq<Command>) -> StateModel
    decreases cs.len(),
{
    if cs.len() == 0 {
        m
    } else {
        replay(step(m, cs[0]), cs.drop_first())
    }
}

/// The full event log of a replay: the concatenation, in application order,
/// of the event sequences recorded for each command.
pub open spec fn replay_events(m: StateModel, cs: Seq<Command>) -> Seq<Event>
    decreases cs.len(),
{
    if cs.len() == 0 {
        Seq::empty()
    } else {
        step_events(m, cs[0]) + replay_events(step(m, cs[0]), cs.drop_first())
    }
}

/// A command that represents "no change under the current state".
pub open spec fn is_noop_command(c: Command) -> bool {
    c is Noop
}

/// An event that is a rejection or no-op marker rather than a record of a
/// state change.
pub open spec fn is_noop_marker(e: Event) -> bool {
    e is NoopApplied
}

/// Determinism: replaying one command sequence from equal initial models
/// yields equal final models and equal event logs. Together with the
/// contract of `apply_command`, which pins each application to `step` and
/// `step_events`, every execution of the core over a fixed command sequence
/// produces the same final state and the same events.
pub proof fn lemma_replay_deterministic(a: StateModel, b: StateModel, cs: Seq<Command>)
    requires
        a == b,
    ensures
        replay(a, cs) == replay(b, cs),
        replay_events(a, cs) == replay_events(b, cs),
{
}

/// Cross-instance agreement: two independently constructed owners, each
/// starting from the initial model, reach models with identical snapshots
/// after replaying the same command sequence.
pub proof fn lemma_independent_owners_agree(a: StateModel, b: StateModel, cs: Seq<Command>)
    requires
        a == init_model(),
        b == init_model(),
    ensures
        snapshot_of(replay(a, cs)) == snapshot_of(replay(b, cs)),
{
}

/// No-op idempotence: applying a command that represents "no change under
/// the current state" leaves the model unchanged, and every event it
/// records is a rejection or no-op marker.
pub proof fn lemma_noop_idempotent(m: StateModel, c: Command)
    requires
        is_noop_command(c),
    ensures
        step(m, c) == m,
        forall|i: int| 0 <= i < step_events(m, c).len() ==> is_noop_marker(step_events(m, c)[i]),
{
}

/// With every representable command currently a no-op, a replay of any
/// command sequence leaves the model unchanged and its event log holds
/// no-op markers only, one per command.
pub proof fn lemma_replay_all_noops(m: StateModel, cs: Seq<Command>)
    ensures
        replay(m, cs) == m,
        replay_events(m, cs).len() == cs.len(),
        forall|i: int| 0 <= i < replay_events(m, cs).len() ==> is_noop_marker(replay_events(m, cs)[i]),
    decreases cs.len(),
{
    if cs.len() > 0 {
        lemma_replay_all_noops(step(m, cs[0]), cs.drop_first());
    }
}

} // verus!
