use crate::diagnostic::Fatal;
use crate::script::{Action, EntryPoint};
use vstd::prelude::*;

verus! {

/// What the host reports of the action that it was asked to perform.
#[derive(Clone, Copy, Debug, PartialEq, Eq, Structural)]
pub enum Outcome {
    Succeeded,
    Failed,
}

/// How the process ends.
#[derive(Clone, Copy, Debug, PartialEq, Eq, Structural)]
pub enum Verdict {
    /// The run loop returned: the process ends in the ordinary way.
    Exit,
    /// The process stops at once, with the failure's message.
    Abort(Fatal),
}

/// Where a start-up stands, as contracts speak of it.
pub enum Status {
    /// The action at this index of the script is outstanding.
    Awaiting(nat),
    /// Nothing is outstanding: the process ends.
    Ended(Verdict),
}

/// Where a start-up stands once the action at `position` of the script of
/// `entry` has had `outcome`. A failure ends it with the action's diagnostic;
/// a success leads on to the next action, or, after the last one, to an
/// ordinary exit.
pub open spec fn after(entry: EntryPoint, position: nat, outcome: Outcome) -> Status {
    match outcome {
        Outcome::Failed => Status::Ended(
            Verdict::Abort(entry.steps()[position as int].failure()),
        ),
        Outcome::Succeeded => if position + 1 < entry.steps().len() {
            Status::Awaiting(position + 1)
        } else {
            Status::Ended(Verdict::Exit)
        },
    }
}

/// A start-up under way: an entry point, and the action of its script that
/// the host is to perform next.
#[derive(Clone, Copy, Debug)]
pub struct Startup {
    entry: EntryPoint,
    position: usize,
}

/// What follows an action's outcome.
#[derive(Clone, Copy, Debug)]
pub enum Progress {
    /// The start-up goes on, with its next action outstanding.
    Continue(Startup),
    /// The start-up is over.
    Halt(Verdict),
}

impl Progress {
    pub open spec fn status(self) -> Status {
        match self {
            Progress::Continue(next) => Status::Awaiting(next.position()),
            Progress::Halt(verdict) => Status::Ended(verdict),
        }
    }
}

impl Startup {
    #[verifier::type_invariant]
    spec fn within_script(self) -> bool {
        self.position < self.entry.steps().len()
    }

    /// The entry point that is being started.
    pub closed spec fn entry(self) -> EntryPoint {
        self.entry
    }

    /// The index, in the entry point's script, of the outstanding action.
    pub closed spec fn position(self) -> nat {
        self.position as nat
    }

    /// A start-up of `entry` with its first action outstanding.
    pub fn begin(entry: EntryPoint) -> (startup: Startup)
        ensures
            startup.entry() == entry,
            startup.position() == 0,
    {
        Startup { entry, position: 0 }
    }

    /// A start-up of `entry` with its last action, the run loop, outstanding.
    /// It is for a host whose framework performs the earlier actions from
    /// inside the run loop, so that only the loop's own outcome is left to
    /// report when it returns.
    pub fn at_run_loop(entry: EntryPoint) -> (startup: Startup)
        ensures
            startup.entry() == entry,
            startup.position() == entry.steps().len() - 1,
    {
        Startup { entry, position: entry.step_count() - 1 }
    }

    /// The action that the host is to perform next.
    pub fn pending(&self) -> (action: Action)
        ensures
            self.position() < self.entry().steps().len(),
            action == self.entry().steps()[self.position() as int],
    {
        proof {
            use_type_invariant(self);
        }
        self.entry.action_at(self.position)
    }

    /// Takes the outcome of the pending action and says what follows, as
    /// [`after`] defines it.
    pub fn advance(self, outcome: Outcome) -> (progress: Progress)
        ensures
            progress.status() == after(self.entry(), self.position(), outcome),
            progress matches Progress::Continue(next) ==> next.entry() == self.entry(),
    {
        proof {
            use_type_invariant(&self);
        }
        match outcome {
            Outcome::Failed => Progress::Halt(Verdict::Abort(self.pending().fatal())),
            Outcome::Succeeded => {
                if self.position + 1 < self.entry.step_count() {
                    Progress::Continue(Startup { entry: self.entry, position: self.position + 1 })
                } else {
                    Progress::Halt(Verdict::Exit)
                }
            },
        }
    }
}

} // verus!
