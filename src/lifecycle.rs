//! The states a sandbox container goes through, as the runtime reports them,
//! and what each lifecycle operation does to them.
//!
//! A container is absent, running, or stopped. `create` starts it at once, so
//! no separate created state is observable; a removed container is absent.
use vstd::prelude::*;

verus! {

/// What the runtime knows of one named container.
#[derive(Clone, Copy, Debug, PartialEq, Eq, Structural)]
pub enum ContainerState {
    Absent,
    Running,
    Stopped,
}

/// Why a lifecycle operation was refused.
#[derive(Clone, Copy, Debug, PartialEq, Eq, Structural)]
pub enum LifecycleError {
    /// `create` on a name that is already taken.
    AlreadyExists,
    /// `stop` or `remove` on a container that does not exist.
    NotFound,
    /// `remove` without force on a running container.
    StillRunning,
}

pub open spec fn exists_in(s: ContainerState) -> bool {
    !(s is Absent)
}

pub open spec fn running_in(s: ContainerState) -> bool {
    s is Running
}

/// The state after `create`, or why it is refused.
pub open spec fn create_result(s: ContainerState) -> Result<ContainerState, LifecycleError> {
    match s {
        ContainerState::Absent => Ok(ContainerState::Running),
        _ => Err(LifecycleError::AlreadyExists),
    }
}

/// The state after `stop`, or why it is refused; stopping twice is allowed.
pub open spec fn stop_result(s: ContainerState) -> Result<ContainerState, LifecycleError> {
    match s {
        ContainerState::Absent => Err(LifecycleError::NotFound),
        _ => Ok(ContainerState::Stopped),
    }
}

/// The state after `remove(force)`, or why it is refused.
pub open spec fn remove_result(s: ContainerState, force: bool) -> Result<ContainerState, LifecycleError> {
    match s {
        ContainerState::Absent => Err(LifecycleError::NotFound),
        ContainerState::Running => if force {
            Ok(ContainerState::Absent)
        } else {
            Err(LifecycleError::StillRunning)
        },
        ContainerState::Stopped => Ok(ContainerState::Absent),
    }
}

/// Applies the outcome of an operation: the new state on success, the old
/// one on failure.
pub open spec fn apply(
    s: ContainerState,
    outcome: Result<ContainerState, LifecycleError>,
) -> ContainerState {
    match outcome {
        Ok(t) => t,
        Err(_) => s,
    }
}

impl ContainerState {
    /// The state that two runtime queries describe: whether the container
    /// exists and whether it is running (the latter counts only if it exists).
    pub fn observe(exists: bool, running: bool) -> (r: ContainerState)
        ensures
            exists_in(r) == exists,
            running_in(r) == (exists && running),
    {
        if !exists {
            ContainerState::Absent
        } else if running {
            ContainerState::Running
        } else {
            ContainerState::Stopped
        }
    }

    pub fn is_present(&self) -> (r: bool)
        ensures
            r == exists_in(*self),
    {
        !matches!(self, ContainerState::Absent)
    }

    pub fn is_running(&self) -> (r: bool)
        ensures
            r == running_in(*self),
    {
        matches!(self, ContainerState::Running)
    }

    /// Creates and starts the container.
    pub fn create(&mut self) -> (r: Result<(), LifecycleError>)
        ensures
            *final(self) == apply(*old(self), create_result(*old(self))),
            r is Ok <==> create_result(*old(self)) is Ok,
            r is Err ==> r == Err::<(), _>(create_result(*old(self))->Err_0),
    {
        match self {
            ContainerState::Absent => {
                *self = ContainerState::Running;
                Ok(())
            },
            _ => Err(LifecycleError::AlreadyExists),
        }
    }

    /// Stops the container; a stopped container stays stopped.
    pub fn stop(&mut self) -> (r: Result<(), LifecycleError>)
        ensures
            *final(self) == apply(*old(self), stop_result(*old(self))),
            r is Ok <==> stop_result(*old(self)) is Ok,
            r is Err ==> r == Err::<(), _>(stop_result(*old(self))->Err_0),
    {
        match self {
            ContainerState::Absent => Err(LifecycleError::NotFound),
            _ => {
                *self = ContainerState::Stopped;
                Ok(())
            },
        }
    }

    /// Removes the container; without `force` a running one is refused.
    pub fn remove(&mut self, force: bool) -> (r: Result<(), LifecycleError>)
        ensures
            *final(self) == apply(*old(self), remove_result(*old(self), force)),
            r is Ok <==> remove_result(*old(self), force) is Ok,
            r is Err ==> r == Err::<(), _>(remove_result(*old(self), force)->Err_0),
    {
        match self {
            ContainerState::Absent => Err(LifecycleError::NotFound),
            ContainerState::Running => {
                if force {
                    *self = ContainerState::Absent;
                    Ok(())
                } else {
                    Err(LifecycleError::StillRunning)
                }
            },
            ContainerState::Stopped => {
                *self = ContainerState::Absent;
                Ok(())
            },
        }
    }
}

/// A freshly named container does not exist; `create` makes it exist and
/// run; `stop` keeps it existing but not running; `remove(false)` then makes
/// it absent. Every step of that sequence succeeds.
pub proof fn lemma_lifecycle_order()
    ensures
        ({
            let s0 = ContainerState::Absent;
            let c = create_result(s0);
            let s1 = apply(s0, c);
            let t = stop_result(s1);
            let s2 = apply(s1, t);
            let r = remove_result(s2, false);
            let s3 = apply(s2, r);
            &&& !exists_in(s0)
            &&& c is Ok && exists_in(s1) && running_in(s1)
            &&& t is Ok && exists_in(s2) && !running_in(s2)
            &&& r is Ok && !exists_in(s3)
        }),
{
}

/// Forced removal of a running container succeeds without a prior `stop`
/// and leaves nothing behind.
pub proof fn lemma_force_remove_running(s: ContainerState)
    requires
        running_in(s),
    ensures
        remove_result(s, true) is Ok,
        !exists_in(apply(s, remove_result(s, true))),
{
}

/// Removal without force of a running container fails and leaves it
/// existing and running.
pub proof fn lemma_remove_running_refused(s: ContainerState)
    requires
        running_in(s),
    ensures
        remove_result(s, false) == Err::<ContainerState, LifecycleError>(LifecycleError::StillRunning),
        exists_in(apply(s, remove_result(s, false))),
        running_in(apply(s, remove_result(s, false))),
{
}

/// Whatever state a container is in, a successful removal leaves it absent.
pub proof fn lemma_removed_is_absent(s: ContainerState, force: bool)
    requires
        remove_result(s, force) is Ok,
    ensures
        !exists_in(apply(s, remove_result(s, force))),
{
}

} // verus!
