//! Start-up sequencing for a desktop application shell.
//!
//! The shell itself is assembled by a GUI framework: plugins are registered,
//! an optional set-up hook looks up the local data directory, and the
//! framework's run loop takes over. This crate holds the part of that which is
//! a decision: the order of the steps, and what becomes of the process when a
//! step fails. The host performs each [`Action`] and reports its [`Outcome`];
//! the [`Startup`] sequencer answers with the next action or with the way the
//! process ends.

pub mod diagnostic;
pub mod plugin;
pub mod salt;
pub mod script;
pub mod startup;
pub mod trace;

pub use diagnostic::Fatal;
pub use plugin::Plugin;
pub use salt::SALT_FILE_NAME;
pub use script::{Action, EntryPoint};
pub use startup::{Outcome, Progress, Startup, Verdict};
