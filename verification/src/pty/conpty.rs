//! The backend on the native pseudoconsole, available on Windows 10 from
//! build 1809 on.
//!
//! [`model`] says what the backend does with each event, [`pty_impl`] does it,
//! and [`laws`] holds what is proved of it.

pub mod laws;
pub mod model;
pub mod pty_impl;

pub use self::model::{ConPTYView, SetupView};
pub use self::pty_impl::{ConPTY, ConPTYSetup};
