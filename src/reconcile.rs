//! Deleting a sandboxed session, as a sequence of decisions.
//!
//! The caller performs each action against the runtime and hands back what
//! happened; `delete_step` decides what to do next. The container is stopped,
//! then removed; a refused removal is retried with force; and the record is
//! cleared only once the runtime confirms that the container is gone.
use vstd::prelude::*;
use crate::session::{sandboxed, Instance};

verus! {

/// Where a session deletion stands.
#[derive(Clone, Copy, Debug, PartialEq, Eq, Structural)]
pub enum DeletePhase {
    /// Waiting for the outcome of `stop`.
    Stopping,
    /// Waiting for the outcome of `remove(false)`.
    Removing,
    /// Waiting for the outcome of `remove(true)`.
    ForceRemoving,
    /// Waiting for the runtime to say whether the container still exists.
    Confirming,
    /// Done: the container is gone, or there was none to remove.
    Finished,
    /// Done: the container may still exist, so the record was kept.
    Failed,
}

/// What the caller does next.
#[derive(Clone, Copy, Debug, PartialEq, Eq, Structural)]
pub enum DeleteAction {
    Stop,
    Remove { force: bool },
    CheckExists,
    ClearRecord,
    KeepRecord,
    Nothing,
}

/// What happened when the caller performed the last action.
#[derive(Clone, Copy, Debug, PartialEq, Eq, Structural)]
pub enum DeleteEvent {
    Succeeded,
    Refused,
    /// The answer to `CheckExists`.
    Listed { exists: bool },
}

pub open spec fn is_terminal(p: DeletePhase) -> bool {
    p == DeletePhase::Finished || p == DeletePhase::Failed
}

/// The first phase and action of deleting a session, sandboxed or not.
pub open spec fn delete_begin(is_sandboxed: bool) -> (DeletePhase, DeleteAction) {
    if is_sandboxed {
        (DeletePhase::Stopping, DeleteAction::Stop)
    } else {
        (DeletePhase::Finished, DeleteAction::Nothing)
    }
}

/// The next phase and action after `e` in phase `p`.
pub open spec fn delete_next(p: DeletePhase, e: DeleteEvent) -> (DeletePhase, DeleteAction) {
    match p {
        DeletePhase::Stopping => (DeletePhase::Removing, DeleteAction::Remove { force: false }),
        DeletePhase::Removing => if e == DeleteEvent::Succeeded {
            (DeletePhase::Confirming, DeleteAction::CheckExists)
        } else {
            (DeletePhase::ForceRemoving, DeleteAction::Remove { force: true })
        },
        DeletePhase::ForceRemoving => (DeletePhase::Confirming, DeleteAction::CheckExists),
        DeletePhase::Confirming => if e == (DeleteEvent::Listed { exists: false }) {
            (DeletePhase::Finished, DeleteAction::ClearRecord)
        } else {
            (DeletePhase::Failed, DeleteAction::KeepRecord)
        },
        DeletePhase::Finished => (DeletePhase::Finished, DeleteAction::Nothing),
        DeletePhase::Failed => (DeletePhase::Failed, DeleteAction::Nothing),
    }
}

/// How many decisions a phase is at most away from a terminal one.
pub open spec fn steps_left(p: DeletePhase) -> nat {
    match p {
        DeletePhase::Stopping => 4,
        DeletePhase::Removing => 3,
        DeletePhase::ForceRemoving => 2,
        DeletePhase::Confirming => 1,
        _ => 0,
    }
}

/// Starts deleting `inst`: a sandboxed session first stops its container;
/// any other has nothing to remove.
pub fn delete_begin_for(inst: &Instance) -> (r: (DeletePhase, DeleteAction))
    ensures
        r == delete_begin(sandboxed(inst.sandbox_info)),
{
    if inst.is_sandboxed() {
        (DeletePhase::Stopping, DeleteAction::Stop)
    } else {
        (DeletePhase::Finished, DeleteAction::Nothing)
    }
}

/// Decides the next phase and action of a deletion.
pub fn delete_step(p: DeletePhase, e: DeleteEvent) -> (r: (DeletePhase, DeleteAction))
    ensures
        r == delete_next(p, e),
{
    match p {
        DeletePhase::Stopping => (DeletePhase::Removing, DeleteAction::Remove { force: false }),
        DeletePhase::Removing => {
            if e == DeleteEvent::Succeeded {
                (DeletePhase::Confirming, DeleteAction::CheckExists)
            } else {
                (DeletePhase::ForceRemoving, DeleteAction::Remove { force: true })
            }
        },
        DeletePhase::ForceRemoving => (DeletePhase::Confirming, DeleteAction::CheckExists),
        DeletePhase::Confirming => {
            if e == (DeleteEvent::Listed { exists: false }) {
                (DeletePhase::Finished, DeleteAction::ClearRecord)
            } else {
                (DeletePhase::Failed, DeleteAction::KeepRecord)
            }
        },
        DeletePhase::Finished => (DeletePhase::Finished, DeleteAction::Nothing),
        DeletePhase::Failed => (DeletePhase::Failed, DeleteAction::Nothing),
    }
}

/// The record is cleared only right after the runtime has confirmed that
/// the container no longer exists.
pub proof fn lemma_clear_only_when_gone(p: DeletePhase, e: DeleteEvent)
    requires
        delete_next(p, e).1 == DeleteAction::ClearRecord,
    ensures
        p == DeletePhase::Confirming,
        e == (DeleteEvent::Listed { exists: false }),
{
}

/// A refused removal without force is followed by a forced one before the
/// deletion can fail.
pub proof fn lemma_force_after_refusal()
    ensures
        delete_next(DeletePhase::Removing, DeleteEvent::Refused) == (
        DeletePhase::ForceRemoving,
        DeleteAction::Remove { force: true },
        ),
{
}

/// Every decision from a phase that is not terminal moves closer to a
/// terminal one, so a deletion ends after at most four decisions whatever
/// the runtime answers.
pub proof fn lemma_delete_progress(p: DeletePhase, e: DeleteEvent)
    requires
        !is_terminal(p),
    ensures
        steps_left(delete_next(p, e).0) < steps_left(p),
        steps_left(delete_next(p, e).0) == 0 ==> is_terminal(delete_next(p, e).0),
{
}

} // verus!
