//! The ways a hook or a code patch can fail.

use vstd::prelude::*;
use vstd::string::*;

verus! {

/// Why a hook could not be installed or removed.
#[derive(Debug, Clone, Copy, PartialEq, Eq, Structural)]
pub enum DobbyHookError {
    /// The engine refused or failed the operation.
    HookError,
    /// The target already carries an active hook.
    AlreadyHooked,
    /// The target carries no active hook.
    NotHooked,
}

impl DobbyHookError {
    /// The text that describes this error.
    pub open spec fn message_text(self) -> Seq<char> {
        match self {
            DobbyHookError::HookError => "hook error"@,
            DobbyHookError::AlreadyHooked => "already hooked"@,
            DobbyHookError::NotHooked => "not hooked"@,
        }
    }

    /// Describes the error in words.
    pub fn message(&self) -> (text: String)
        ensures
            text@ == self.message_text(),
    {
        match self {
            DobbyHookError::HookError => String::from_str("hook error"),
            DobbyHookError::AlreadyHooked => String::from_str("already hooked"),
            DobbyHookError::NotHooked => String::from_str("not hooked"),
        }
    }
}

/// Why the engine could not write bytes over existing code.
#[derive(Debug, Clone, Copy, PartialEq, Eq, Structural)]
pub enum DobbyMemoryOperationError {
    /// The write itself failed.
    MemoryOperationError,
    /// The bytes do not fit into the memory that can be written at the target.
    NotEnough,
    /// The environment does not hand out executable memory.
    NotSupportAllocateExecutableMemory,
    /// The engine gave no reason that this library knows.
    Unknown,
}

impl DobbyMemoryOperationError {
    /// The text that describes this error.
    pub open spec fn message_text(self) -> Seq<char> {
        match self {
            DobbyMemoryOperationError::MemoryOperationError => "memory operation error"@,
            DobbyMemoryOperationError::NotEnough => "not enough memory"@,
            DobbyMemoryOperationError::NotSupportAllocateExecutableMemory =>
                "not support allocate executable memory"@,
            DobbyMemoryOperationError::Unknown => "unknown error"@,
        }
    }

    /// Describes the error in words.
    pub fn message(&self) -> (text: String)
        ensures
            text@ == self.message_text(),
    {
        match self {
            DobbyMemoryOperationError::MemoryOperationError => String::from_str(
                "memory operation error",
            ),
            DobbyMemoryOperationError::NotEnough => String::from_str("not enough memory"),
            DobbyMemoryOperationError::NotSupportAllocateExecutableMemory => String::from_str(
                "not support allocate executable memory",
            ),
            DobbyMemoryOperationError::Unknown => String::from_str("unknown error"),
        }
    }
}

} // verus!
