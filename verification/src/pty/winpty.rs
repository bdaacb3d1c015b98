//! The backend that drives a winpty agent, for systems without a native
//! pseudoconsole, and the settings of the agent.
//!
//! [`model`] says what the backend does with each event, [`pty_impl`] does it,
//! and [`laws`] holds what is proved of it.

use vstd::prelude::*;

pub mod bindings;
pub mod laws;
pub mod model;
pub mod pty_impl;

pub use self::model::{SetupView, WinPTYView};
pub use self::pty_impl::{WinPTY, WinPTYSetup};

verus! {

/// Mouse capture settings for the winpty backend.
#[allow(non_camel_case_types)]
#[derive(Copy, Clone, Debug, PartialEq, Eq, Structural)]
pub enum MouseMode {
    /// QuickEdit mode is initially disabled, and the agent does not send mouse
    /// mode sequences to the terminal.
    WINPTY_MOUSE_MODE_NONE,
    /// QuickEdit mode is initially enabled. As CONIN enters or leaves mouse
    /// input mode, the agent enables or disables mouse input on the terminal.
    WINPTY_MOUSE_MODE_AUTO,
    /// QuickEdit mode is initially disabled, and the agent enables the
    /// terminal's mouse input mode. It does not disable it until exit.
    WINPTY_MOUSE_MODE_FORCE,
}

impl MouseMode {
    /// The number that the agent knows each mode by.
    pub open spec fn spec_to_i32(self) -> i32 {
        match self {
            MouseMode::WINPTY_MOUSE_MODE_NONE => 0,
            MouseMode::WINPTY_MOUSE_MODE_AUTO => 1,
            MouseMode::WINPTY_MOUSE_MODE_FORCE => 2,
        }
    }

    /// The mode that a number stands for, if any.
    pub open spec fn spec_from_i32(n: i32) -> Option<MouseMode> {
        if n == 0 {
            Some(MouseMode::WINPTY_MOUSE_MODE_NONE)
        } else if n == 1 {
            Some(MouseMode::WINPTY_MOUSE_MODE_AUTO)
        } else if n == 2 {
            Some(MouseMode::WINPTY_MOUSE_MODE_FORCE)
        } else {
            None
        }
    }

    /// The number of this mode.
    pub fn to_i32(&self) -> (n: i32)
        ensures
            n == self.spec_to_i32(),
    {
        match self {
            MouseMode::WINPTY_MOUSE_MODE_NONE => 0,
            MouseMode::WINPTY_MOUSE_MODE_AUTO => 1,
            MouseMode::WINPTY_MOUSE_MODE_FORCE => 2,
        }
    }

    /// The mode with the given number; `None` for any other number.
    pub fn from_i32(n: i32) -> (mode: Option<MouseMode>)
        ensures
            mode == Self::spec_from_i32(n),
    {
        if n == 0 {
            Some(MouseMode::WINPTY_MOUSE_MODE_NONE)
        } else if n == 1 {
            Some(MouseMode::WINPTY_MOUSE_MODE_AUTO)
        } else if n == 2 {
            Some(MouseMode::WINPTY_MOUSE_MODE_FORCE)
        } else {
            None
        }
    }
}

/// Create a new screen buffer (connected to the "conerr" terminal pipe) and
/// pass it to child processes as the STDERR handle.
pub const WINPTY_FLAG_CONERR: u64 = 1;

/// Don't output escape sequences.
pub const WINPTY_FLAG_PLAIN_OUTPUT: u64 = 2;

/// Do output color escape sequences. These escapes are output by default, but
/// are suppressed with `WINPTY_FLAG_PLAIN_OUTPUT`.
pub const WINPTY_FLAG_COLOR_ESCAPES: u64 = 4;

/// Every flag that the agent knows.
pub const WINPTY_FLAG_MASK: u64 = 7;

/// General configuration settings for the winpty backend: a set of the flags
/// above, and of no others.
#[derive(Copy, Clone, Debug, PartialEq, Eq, Structural)]
pub struct AgentConfig {
    bits: u64,
}

impl AgentConfig {
    /// The flags as a number.
    pub closed spec fn spec_bits(self) -> u64 {
        self.bits
    }

    /// A set holds no bit that is no flag.
    #[verifier::type_invariant]
    closed spec fn known_flags_only(self) -> bool {
        self.bits <= WINPTY_FLAG_MASK
    }

    /// The set with no flag.
    pub fn empty() -> (config: AgentConfig)
        ensures
            config.spec_bits() == 0,
    {
        AgentConfig { bits: 0 }
    }

    /// The set that the number stands for; `None` if the number holds a bit
    /// that is no flag.
    pub fn from_bits(bits: u64) -> (config: Option<AgentConfig>)
        ensures
            config is Some <==> bits <= WINPTY_FLAG_MASK,
            config matches Some(c) ==> c.spec_bits() == bits,
    {
        if bits <= WINPTY_FLAG_MASK {
            Some(AgentConfig { bits })
        } else {
            None
        }
    }

    /// The flags as a number: never one that holds a bit that is no flag.
    pub fn bits(&self) -> (bits: u64)
        ensures
            bits == self.spec_bits(),
            bits <= WINPTY_FLAG_MASK,
    {
        proof {
            use_type_invariant(self);
        }
        self.bits
    }

    /// Whether every flag of `other` is in this set.
    pub fn contains(&self, other: AgentConfig) -> (held: bool)
        ensures
            held == (self.spec_bits() & other.spec_bits() == other.spec_bits()),
    {
        self.bits & other.bits == other.bits
    }

    /// The flags of both sets.
    pub fn union(&self, other: AgentConfig) -> (both: AgentConfig)
        ensures
            both.spec_bits() == self.spec_bits() | other.spec_bits(),
    {
        proof {
            use_type_invariant(self);
            use_type_invariant(&other);
        }
        let a = self.bits;
        let b = other.bits;
        assert(a <= 7 && b <= 7 ==> a | b <= 7) by (bit_vector);
        AgentConfig { bits: a | b }
    }
}

} // verus!
