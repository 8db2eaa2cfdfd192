//! A process watchdog's supervision logic: the actor that owns the child
//! process, the coordinator that holds the deadline and the restart policy,
//! and the laws that tie the two together.

mod coordinator;
pub mod laws;
mod message;
pub mod protocol;
mod supervisor;

pub use coordinator::{
    After, Coordinator, CoordinatorModel, Decision, Phase, Report, GRACE_MILLIS, POLL_MILLIS,
};
pub use message::{Fault, Message};
pub use supervisor::{Supervisor, Work};
