use vstd::prelude::*;

verus! {

/// A failure that ends the process while the shell starts. There is no
/// recovery from either: the process stops with the diagnostic's message.
#[derive(Clone, Copy, Debug, PartialEq, Eq, Structural)]
pub enum Fatal {
    /// The host could not name a local data directory for the application.
    NoAppDataDir,
    /// A plugin was rejected, or the framework failed to start or to run the
    /// application.
    RunFailed,
}

impl Fatal {
    /// The fixed text that the process prints when it stops on this failure.
    pub open spec fn text(self) -> Seq<char> {
        match self {
            Fatal::NoAppDataDir => "no app data dir"@,
            Fatal::RunFailed => "error while running tauri application"@,
        }
    }

    /// The message of this failure, as [`Fatal::text`] defines it.
    pub fn message(&self) -> (message: &'static str)
        ensures
            message@ == self.text(),
    {
        match self {
            Fatal::NoAppDataDir => "no app data dir",
            Fatal::RunFailed => "error while running tauri application",
        }
    }
}

} // verus!
