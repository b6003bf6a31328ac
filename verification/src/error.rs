//! Error type of the core orchestration layer.

use vstd::prelude::*;

verus! {

/// Errors reported by the core layer.
#[derive(Debug, Clone)]
pub enum CoreError {
    /// Invalid configuration or input.
    Config(String),
    /// The named object does not exist.
    NotFound(String),
    /// The named object already exists.
    AlreadyExists(String),
    /// The operation is not valid in the current state.
    InvalidState(String),
    /// A machine or agent operation failed.
    Machine(String),
    /// The guest agent answered with an error response.
    Agent { code: i32, message: String },
    /// A virtual machine operation failed.
    Vm(String),
    /// A lock guarding shared state was poisoned.
    LockPoisoned,
}

/// The kind of a [`CoreError`], without its message.
#[derive(Debug, Clone, Copy, PartialEq, Eq, Structural)]
pub enum CoreErrorKind {
    Config,
    NotFound,
    AlreadyExists,
    InvalidState,
    Machine,
    Agent,
    Vm,
    LockPoisoned,
}

impl CoreError {
    /// The kind of this error.
    pub open spec fn kind_spec(&self) -> CoreErrorKind {
        match self {
            CoreError::Config(_) => CoreErrorKind::Config,
            CoreError::NotFound(_) => CoreErrorKind::NotFound,
            CoreError::AlreadyExists(_) => CoreErrorKind::AlreadyExists,
            CoreError::InvalidState(_) => CoreErrorKind::InvalidState,
            CoreError::Machine(_) => CoreErrorKind::Machine,
            CoreError::Agent { .. } => CoreErrorKind::Agent,
            CoreError::Vm(_) => CoreErrorKind::Vm,
            CoreError::LockPoisoned => CoreErrorKind::LockPoisoned,
        }
    }

    /// The kind of this error.
    pub fn kind(&self) -> (k: CoreErrorKind)
        ensures
            k == self.kind_spec(),
    {
        match self {
            CoreError::Config(_) => CoreErrorKind::Config,
            CoreError::NotFound(_) => CoreErrorKind::NotFound,
            CoreError::AlreadyExists(_) => CoreErrorKind::AlreadyExists,
            CoreError::InvalidState(_) => CoreErrorKind::InvalidState,
            CoreError::Machine(_) => CoreErrorKind::Machine,
            CoreError::Agent { .. } => CoreErrorKind::Agent,
            CoreError::Vm(_) => CoreErrorKind::Vm,
            CoreError::LockPoisoned => CoreErrorKind::LockPoisoned,
        }
    }

    /// The message text of this error.
    pub open spec fn message_spec(&self) -> Seq<char> {
        match self {
            CoreError::Config(m) => m@,
            CoreError::NotFound(m) => m@,
            CoreError::AlreadyExists(m) => m@,
            CoreError::InvalidState(m) => m@,
            CoreError::Machine(m) => m@,
            CoreError::Agent { message, .. } => message@,
            CoreError::Vm(m) => m@,
            CoreError::LockPoisoned => "lock poisoned"@,
        }
    }

    /// The message text of this error.
    pub fn to_string(&self) -> (s: String)
        ensures
            s@ == self.message_spec(),
    {
        match self {
            CoreError::Config(m) => m.clone(),
            CoreError::NotFound(m) => m.clone(),
            CoreError::AlreadyExists(m) => m.clone(),
            CoreError::InvalidState(m) => m.clone(),
            CoreError::Machine(m) => m.clone(),
            CoreError::Agent { message, .. } => message.clone(),
            CoreError::Vm(m) => m.clone(),
            CoreError::LockPoisoned => "lock poisoned".to_owned(),
        }
    }
}

} // verus!
