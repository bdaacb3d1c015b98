//! The objects of the winpty agent library, as the session keeps them.
//!
//! The library hands out its objects by address and says nothing of what is
//! inside. The session keeps each address under the type of the object, so
//! that one kind of object cannot be handed where another is due.
#![allow(non_camel_case_types)]

use vstd::prelude::*;

verus! {

/// An error object. Every error that the agent library returns must be freed.
#[derive(Copy, Clone, Debug, PartialEq, Eq, Structural)]
pub struct winpty_error_s {
    /// Where the library keeps the object.
    pub address: usize,
}

/// The configuration of a new agent.
#[derive(Copy, Clone, Debug, PartialEq, Eq, Structural)]
pub struct winpty_config_s {
    /// Where the library keeps the object.
    pub address: usize,
}

/// A running agent with its terminal.
#[derive(Copy, Clone, Debug, PartialEq, Eq, Structural)]
pub struct winpty_s {
    /// Where the library keeps the object.
    pub address: usize,
}

/// The configuration of a process to spawn.
#[derive(Copy, Clone, Debug, PartialEq, Eq, Structural)]
pub struct winpty_spawn_config_s {
    /// Where the library keeps the object.
    pub address: usize,
}

/// Ask the agent to shut down when the spawned process exits.
pub const WINPTY_SPAWN_FLAG_AUTO_SHUTDOWN: u64 = 1;

/// Ask the agent to exit once it has shut down and its output was read.
pub const WINPTY_SPAWN_FLAG_EXIT_AFTER_SHUTDOWN: u64 = 2;

/// Both spawn flags: what every spawn of this crate asks for.
pub const WINPTY_SPAWN_FLAG_MASK: u64 = 3;

} // verus!
