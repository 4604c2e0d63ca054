//! Lifecycle manager and callback bridge for a continuous, bidirectional
//! replication session run by a foreign, callback-driven sync engine.
//!
//! The library decides; the embedder performs. Every engine call the library
//! wants made is returned as an [`Action`], in the order in which it must be
//! performed, and every engine answer comes back as a plain value.
pub mod options;
pub mod registry;
pub mod session;
pub mod status;

pub use options::{build_options, OptionEntry, OptionValue};
pub use registry::{filter_reply, CallbackRegistry, HookKind, HookSet};
pub use session::{Action, CreateRequest, PendingSession, ReplicatorMode, Session};
pub use status::{EngineError, Error, Progress, ReplicatorState, ReplicatorStatus};
