use crate::diagnostic::Fatal;
use crate::plugin::Plugin;
use vstd::prelude::*;

verus! {

/// Something that the host does for the shell while it starts. Each either
/// succeeds or fails; nothing else is reported back.
#[derive(Clone, Copy, Debug, PartialEq, Eq, Structural)]
pub enum Action {
    /// Ask the host for the application's local data directory. The salt file
    /// of the secret store, [`crate::salt::SALT_FILE_NAME`], lies directly
    /// under it.
    ResolveDataDir,
    /// Register a plugin with the application framework.
    AttachPlugin(Plugin),
    /// Hand control to the framework's run loop, which returns when the
    /// application is closed.
    EnterRunLoop,
}

impl Action {
    /// The failure that ends the process when this action fails.
    pub open spec fn failure(self) -> Fatal {
        match self {
            Action::ResolveDataDir => Fatal::NoAppDataDir,
            Action::AttachPlugin(_) => Fatal::RunFailed,
            Action::EnterRunLoop => Fatal::RunFailed,
        }
    }

    /// The failure that ends the process when this action fails.
    pub fn fatal(&self) -> (fatal: Fatal)
        ensures
            fatal == self.failure(),
    {
        match self {
            Action::ResolveDataDir => Fatal::NoAppDataDir,
            Action::AttachPlugin(_) => Fatal::RunFailed,
            Action::EnterRunLoop => Fatal::RunFailed,
        }
    }
}

/// One of the two ways in which the shell is started.
#[derive(Clone, Copy, Debug, PartialEq, Eq, Structural)]
pub enum EntryPoint {
    /// The desktop binary. It registers the store, the file system bridge and
    /// the shell bridge, and runs.
    Main,
    /// The entry that mobile targets share. Its set-up hook looks up the local
    /// data directory and registers the store; then the application runs.
    Run,
}

impl EntryPoint {
    /// The actions of this entry point, in the order in which the host
    /// performs them.
    pub open spec fn steps(self) -> Seq<Action> {
        match self {
            EntryPoint::Main => seq![
                Action::AttachPlugin(Plugin::Store),
                Action::AttachPlugin(Plugin::Fs),
                Action::AttachPlugin(Plugin::Shell),
                Action::EnterRunLoop,
            ],
            EntryPoint::Run => seq![
                Action::ResolveDataDir,
                Action::AttachPlugin(Plugin::Store),
                Action::EnterRunLoop,
            ],
        }
    }

    /// The actions of this entry point, in order.
    pub fn script(&self) -> (script: Vec<Action>)
        ensures
            script@ == self.steps(),
    {
        let mut script: Vec<Action> = Vec::new();
        match self {
            EntryPoint::Main => {
                script.push(Action::AttachPlugin(Plugin::Store));
                script.push(Action::AttachPlugin(Plugin::Fs));
                script.push(Action::AttachPlugin(Plugin::Shell));
            },
            EntryPoint::Run => {
                script.push(Action::ResolveDataDir);
                script.push(Action::AttachPlugin(Plugin::Store));
            },
        }
        script.push(Action::EnterRunLoop);
        script
    }

    /// How many actions this entry point has.
    pub fn step_count(&self) -> (count: usize)
        ensures
            count == self.steps().len(),
    {
        match self {
            EntryPoint::Main => 4,
            EntryPoint::Run => 3,
        }
    }

    /// The action at `index` of the script, for an index that lies in it.
    pub(crate) fn action_at(&self, index: usize) -> (action: Action)
        requires
            index < self.steps().len(),
        ensures
            action == self.steps()[index as int],
    {
        match self {
            EntryPoint::Main => match index {
                0 => Action::AttachPlugin(Plugin::Store),
                1 => Action::AttachPlugin(Plugin::Fs),
                2 => Action::AttachPlugin(Plugin::Shell),
                _ => Action::EnterRunLoop,
            },
            EntryPoint::Run => match index {
                0 => Action::ResolveDataDir,
                1 => Action::AttachPlugin(Plugin::Store),
                _ => Action::EnterRunLoop,
            },
        }
    }

    /// The action at `index`, or `None` past the end of the script.
    pub fn step(&self, index: usize) -> (step: Option<Action>)
        ensures
            step == if index < self.steps().len() {
                Some(self.steps()[index as int])
            } else {
                None
            },
    {
        if index < self.step_count() {
            Some(self.action_at(index))
        } else {
            None
        }
    }

    /// Every script ends with the run loop, and enters it nowhere else.
    pub proof fn lemma_run_loop_is_last(self)
        ensures
            self.steps().len() >= 1,
            forall|i: int|
                0 <= i < self.steps().len() ==> (#[trigger] self.steps()[i] == Action::EnterRunLoop
                    <==> i == self.steps().len() - 1),
    {
    }
}

} // verus!
