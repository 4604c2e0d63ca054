//! The typed session state, decoded from the engine's raw status record.
use vstd::prelude::*;

verus! {

/// Raw activity level: finished, or got a fatal error.
pub const LEVEL_STOPPED: i32 = 0;

/// Raw activity level: offline, nothing is replicated.
pub const LEVEL_OFFLINE: i32 = 1;

/// Raw activity level: a connection is in progress.
pub const LEVEL_CONNECTING: i32 = 2;

/// Raw activity level: caught up and waiting for changes.
pub const LEVEL_IDLE: i32 = 3;

/// Raw activity level: connected and actively working.
pub const LEVEL_BUSY: i32 = 4;

/// An error as the engine reports it: a domain, a code within that domain and
/// an opaque detail. A code of zero means "no error".
#[derive(Clone, Copy, Debug, PartialEq, Eq, Structural)]
pub struct EngineError {
    pub domain: u32,
    pub code: i32,
    pub internal_info: u32,
}

impl EngineError {
    pub open spec fn spec_is_error(&self) -> bool {
        self.code != 0
    }

    /// Whether this value stands for an actual failure rather than a clean
    /// outcome.
    pub fn is_error(&self) -> (r: bool)
        ensures
            r == self.spec_is_error(),
    {
        self.code != 0
    }
}

/// How far the session has got, as the engine counts it.
#[derive(Clone, Copy, Debug, PartialEq, Eq, Structural)]
pub struct Progress {
    pub units_completed: u64,
    pub units_total: u64,
    pub document_count: u64,
}

/// The engine's raw, point-in-time status of a session.
#[derive(Clone, Copy, Debug, PartialEq, Eq, Structural)]
pub struct ReplicatorStatus {
    pub level: i32,
    pub progress: Progress,
    pub error: EngineError,
    pub flags: i32,
}

/// The errors this library reports.
#[derive(Debug)]
pub enum Error {
    /// The engine could not parse the remote URL; it carries that URL.
    InvalidUrl(String),
    /// Encoding the options payload failed with this encoder code.
    Encoding(i32),
    /// The engine refused to create the session.
    Engine(EngineError),
    /// A raw status whose activity level is none of the known ones.
    UnknownLevel(ReplicatorStatus),
}

/// The possible states of a replicator.
#[derive(Debug)]
pub enum ReplicatorState {
    /// Finished, or got a fatal error; the error may be "no error".
    Stopped(EngineError),
    /// Offline, replication does not work.
    Offline,
    /// Connection is in progress.
    Connecting,
    /// Continuous replicator has caught up and is waiting for changes.
    Idle,
    /// Connected and actively working.
    Busy,
}

/// Whether a raw activity level is one of the five known ones.
pub open spec fn known_level(level: i32) -> bool {
    0 <= level <= 4
}

impl ReplicatorState {
    /// What a raw status decodes to, for a known activity level.
    pub open spec fn decoded(&self, status: ReplicatorStatus) -> bool {
        match *self {
            ReplicatorState::Stopped(e) => status.level == LEVEL_STOPPED && e == status.error,
            ReplicatorState::Offline => status.level == LEVEL_OFFLINE,
            ReplicatorState::Connecting => status.level == LEVEL_CONNECTING,
            ReplicatorState::Idle => status.level == LEVEL_IDLE,
            ReplicatorState::Busy => status.level == LEVEL_BUSY,
        }
    }

    /// Decodes a raw status. Every known activity level maps to its own
    /// state, a stopped one carrying the status's error; any other level is
    /// refused with an error that carries the whole status.
    pub fn try_from(status: ReplicatorStatus) -> (r: Result<ReplicatorState, Error>)
        ensures
            known_level(status.level) <==> r is Ok,
            r matches Ok(s) ==> s.decoded(status),
            r matches Err(e) ==> e == Error::UnknownLevel(status),
    {
        if status.level == LEVEL_STOPPED {
            Ok(ReplicatorState::Stopped(status.error))
        } else if status.level == LEVEL_OFFLINE {
            Ok(ReplicatorState::Offline)
        } else if status.level == LEVEL_CONNECTING {
            Ok(ReplicatorState::Connecting)
        } else if status.level == LEVEL_IDLE {
            Ok(ReplicatorState::Idle)
        } else if status.level == LEVEL_BUSY {
            Ok(ReplicatorState::Busy)
        } else {
            Err(Error::UnknownLevel(status))
        }
    }
}

} // verus!
