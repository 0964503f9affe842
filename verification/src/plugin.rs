use vstd::prelude::*;

verus! {

/// A host capability that the shell registers with the application framework
/// while it starts.
#[derive(Clone, Copy, Debug, PartialEq, Eq, Structural)]
pub enum Plugin {
    /// Persistent key-value store.
    Store,
    /// Bridge to the host's file system.
    Fs,
    /// Bridge to the host's shell, for starting processes.
    Shell,
}

} // verus!
