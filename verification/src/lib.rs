//! Failure taxonomy for an actor runtime: the typed values that report a
//! failed spawn, an abnormal exit of an actor's processing loop, and an
//! undeliverable message.

pub mod errors;

pub use errors::ActorErr;
pub use errors::MessagingErr;
pub use errors::SpawnErr;
