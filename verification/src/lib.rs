//! Pseudoterminal sessions on Windows, written as a protocol core.
//!
//! The crate decides; it never touches the operating system itself. Every
//! operation of a [`PTY`] answers with a [`Step`]: either an [`Action`] that the
//! host has to perform, or the finished result. The host performs the action
//! and hands what came back to `resume` as an [`Event`], until the operation has
//! finished. Two backends share this protocol: the native pseudoconsole
//! ([`PTYBackend::ConPTY`]) and the winpty agent ([`PTYBackend::WinPTY`]).
//!
//! A host is a loop around one function that performs an action:
//!
//! ```text
//! let (mut setup, mut step) = PTY::new(&args, features);
//! let mut pty = loop {
//!     match step {
//!         Step::Perform(action) => step = setup.resume(perform(action)),
//!         Step::Finished(result) => break result?,
//!     }
//! };
//!
//! let mut step = pty.read(1000, false);
//! let text = loop {
//!     match step {
//!         Step::Perform(action) => step = pty.resume(perform(action)),
//!         Step::Finished(result) => break result?,
//!     }
//! };
//!
//! for action in pty.teardown() {
//!     perform(action);
//! }
//! ```
//!
//! What the session holds of the system is written down in its state, and
//! given back when a construction or an operation fails, and when the session
//! ends: see [`pty::resources`]. Text goes to the process as UTF-8 and comes
//! back as UTF-8: see [`pty::encoding`].

pub mod pty;

pub use pty::base::{PTYImpl, PTYProcess};
pub use pty::conpty::ConPTY;
pub use pty::protocol::{Action, Event, Output, Step};
pub use pty::winpty::{AgentConfig, MouseMode, WinPTY};
pub use pty::{Features, PTYArgs, PTYBackend, PTYSetup, PTY};
