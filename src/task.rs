//! Which access to the shared simulation store each kind of task may hold.
use vstd::prelude::*;

verus! {

broadcast use vstd::string::group_string_axioms;

/// A task's access to the agent state.
#[derive(Debug, Clone, Copy, PartialEq, Eq, Structural)]
pub enum SharedState {
    Write,
    Read,
    NoAccess,
}

/// A task's access to the simulation context.
#[derive(Debug, Clone, Copy, PartialEq, Eq, Structural)]
pub enum SharedContext {
    Read,
    NoAccess,
}

/// The access to the shared store that a task was given.
#[derive(Debug, Clone, Copy, PartialEq, Eq)]
pub struct TaskSharedStore {
    pub state: SharedState,
    pub context: SharedContext,
}

impl TaskSharedStore {
    pub fn state(&self) -> (r: SharedState)
        ensures
            r == self.state,
    {
        self.state
    }

    pub fn context(&self) -> (r: SharedContext)
        ensures
            r == self.context,
    {
        self.context
    }
}

/// A task was given access that its kind may not hold.
#[derive(Debug, Clone, PartialEq, Eq)]
pub struct AccessNotAllowed {
    pub state: SharedState,
    pub context: SharedContext,
    /// The kind of task, as named in reports.
    pub task: String,
}

/// The split of a task over workers.
#[derive(Debug, Clone, PartialEq, Eq)]
pub struct SplitConfig {
    pub num_workers: usize,
    pub agent_distribution: Option<Vec<usize>>,
}

/// A kind of task, and the access to the shared store that it may hold.
pub trait StoreAccessVerify {
    /// Whether a task of this kind may hold `state` and `context` access.
    spec fn spec_allows(&self, state: SharedState, context: SharedContext) -> bool;

    /// The name of this kind of task in reports.
    spec fn spec_task_name(&self) -> Seq<char>;

    /// Accepts `access` if a task of this kind may hold it.
    fn verify_store_access(&self, access: &TaskSharedStore) -> (r: Result<(), AccessNotAllowed>)
        ensures
            match r {
                Ok(()) => self.spec_allows(access.state, access.context),
                Err(e) => !self.spec_allows(access.state, access.context) && e.state
                    == access.state && e.context == access.context && e.task@
                    == self.spec_task_name(),
            },
    ;
}

fn refuse(access: &TaskSharedStore, task: &str) -> (r: Result<(), AccessNotAllowed>)
    ensures
        r matches Err(e) && e.state == access.state && e.context == access.context && e.task@
            == task@,
{
    Err(AccessNotAllowed { state: access.state, context: access.context, task: task.to_owned() })
}

/// A task that reads the simulation context.
#[derive(Debug, Clone, Copy, PartialEq, Eq)]
pub struct ContextTask;

/// A task that initialises the agents.
#[derive(Debug, Clone, Copy, PartialEq, Eq)]
pub struct InitTask;

/// A task that updates the agent state.
#[derive(Debug, Clone, Copy, PartialEq, Eq)]
pub struct StateTask;

/// A task that produces output from the agent state.
#[derive(Debug, Clone, Copy, PartialEq, Eq)]
pub struct OutputTask;

impl StoreAccessVerify for ContextTask {
    /// State may be read, context not at all.
    open spec fn spec_allows(&self, state: SharedState, context: SharedContext) -> bool {
        state != SharedState::Write && context == SharedContext::NoAccess
    }

    open spec fn spec_task_name(&self) -> Seq<char> {
        "Context"@
    }

    fn verify_store_access(&self, access: &TaskSharedStore) -> (r: Result<(), AccessNotAllowed>) {
        let state = access.state();
        let context = access.context();
        if (state == SharedState::Read || state == SharedState::NoAccess) && context
            == SharedContext::NoAccess {
            Ok(())
        } else {
            refuse(access, "Context")
        }
    }
}

impl StoreAccessVerify for InitTask {
    /// Neither state nor context.
    open spec fn spec_allows(&self, state: SharedState, context: SharedContext) -> bool {
        state == SharedState::NoAccess && context == SharedContext::NoAccess
    }

    open spec fn spec_task_name(&self) -> Seq<char> {
        "Init"@
    }

    fn verify_store_access(&self, access: &TaskSharedStore) -> (r: Result<(), AccessNotAllowed>) {
        let state = access.state();
        let context = access.context();
        if state == SharedState::NoAccess && context == SharedContext::NoAccess {
            Ok(())
        } else {
            refuse(access, "Init")
        }
    }
}

impl StoreAccessVerify for StateTask {
    /// Any access to state, and context to read.
    open spec fn spec_allows(&self, state: SharedState, context: SharedContext) -> bool {
        true
    }

    open spec fn spec_task_name(&self) -> Seq<char> {
        "State"@
    }

    fn verify_store_access(&self, access: &TaskSharedStore) -> (r: Result<(), AccessNotAllowed>) {
        let state = access.state();
        let context = access.context();
        if (state == SharedState::Write || state == SharedState::Read || state == SharedState::NoAccess)
            && (context == SharedContext::Read || context == SharedContext::NoAccess) {
            Ok(())
        } else {
            refuse(access, "State")
        }
    }
}

impl StoreAccessVerify for OutputTask {
    /// State and context to read.
    open spec fn spec_allows(&self, state: SharedState, context: SharedContext) -> bool {
        state != SharedState::Write
    }

    open spec fn spec_task_name(&self) -> Seq<char> {
        "Output"@
    }

    fn verify_store_access(&self, access: &TaskSharedStore) -> (r: Result<(), AccessNotAllowed>) {
        let state = access.state();
        let context = access.context();
        if (state == SharedState::Read || state == SharedState::NoAccess) && (context
            == SharedContext::Read || context == SharedContext::NoAccess) {
            Ok(())
        } else {
            refuse(access, "Output")
        }
    }
}

} // verus!
