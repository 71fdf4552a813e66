//! Verified bookkeeping for an inline function-hooking engine.
//!
//! The engine itself patches machine code inside the running process. This
//! library holds everything around it that can be decided from plain values:
//! which requests may be handed to the engine, what each of its answers
//! means, and which hooks are in place afterwards. A caller asks a function
//! here whether a request may go ahead, performs the engine call, and hands
//! the engine's answer back to the function that completes the operation.

pub mod address;
pub mod error;
pub mod hook;
pub mod laws;
pub mod patch;
pub mod registry;
pub mod symbol;

pub use crate::address::{Address, NULL_ADDRESS};
pub use crate::error::{DobbyHookError, DobbyMemoryOperationError};
pub use crate::hook::{hook, hook_and_update_origin, unhook};
pub use crate::patch::{patch_code, patch_request};
pub use crate::registry::{HookEntry, HookRegistry, HookReply, HookState};
pub use crate::symbol::{is_symbol_name, resolve_symbol};
