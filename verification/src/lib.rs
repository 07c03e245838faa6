//! A pure state-machine core: a strict separation between the private
//! authoritative state and the runtime shell that drives it. All mutation
//! flows through a single total transition function, every mutation yields
//! an ordered sequence of events, and the outside world reads state only
//! through independent snapshots.

pub mod laws;
pub mod state;

pub use state::Command;
pub use state::Event;
pub use state::Snapshot;
pub use state::StateOwner;
pub use state::StateModel;
pub use state::init_model;
pub use state::step;
pub use state::step_events;
pub use state::snapshot_of;
