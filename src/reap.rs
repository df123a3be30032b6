use vstd::prelude::*;

use crate::dispatch::ReapTask;

verus! {

/// What the reaper of a decrypted file does next.
#[derive(Clone, Copy, Debug, PartialEq, Eq, Structural)]
pub enum ReapAction {
    /// Sleep this many seconds.
    Sleep(u64),
    /// Hand the file back to the service identity.
    TakeOwnership,
    /// Delete the file.
    Delete,
    /// Stop; `reported` says that a failure is to be reported first.
    Stop { reported: bool },
}

/// Where the reaper stands.
#[derive(Clone, Copy, Debug, PartialEq, Eq, Structural)]
pub enum ReapStage {
    Sleeping,
    Reclaiming,
    Deleting,
    Finished,
}

/// The step from `stage` once the last action is done; `ok` says whether it succeeded.
pub open spec fn reap_next(stage: ReapStage, ok: bool) -> (ReapStage, ReapAction) {
    match stage {
        ReapStage::Sleeping => (ReapStage::Reclaiming, ReapAction::TakeOwnership),
        ReapStage::Reclaiming => if ok {
            (ReapStage::Deleting, ReapAction::Delete)
        } else {
            (ReapStage::Finished, ReapAction::Stop { reported: true })
        },
        ReapStage::Deleting => (ReapStage::Finished, ReapAction::Stop { reported: !ok }),
        ReapStage::Finished => (ReapStage::Finished, ReapAction::Stop { reported: false }),
    }
}

/// The background task that takes a decrypted file back and deletes it once its time is up.
/// There is no way to cancel it: once started, it always tries.
pub struct Reaper {
    pub task: ReapTask,
    pub stage: ReapStage,
}

impl Reaper {
    /// Starts the reaper of `task`: first it sleeps for the task's time to live.
    pub fn start(task: ReapTask) -> (r: (Reaper, ReapAction))
        ensures
            r.0.task@ == task@,
            r.0.stage == ReapStage::Sleeping,
            r.1 == ReapAction::Sleep(task.ttl),
    {
        let ttl = task.ttl;
        (Reaper { task, stage: ReapStage::Sleeping }, ReapAction::Sleep(ttl))
    }

    /// The path that the reaper works on.
    pub fn path(&self) -> (p: &str)
        ensures
            p@ == self.task.path@,
    {
        self.task.path.as_str()
    }

    /// Advances once the last action is done; `ok` says whether it succeeded (a sleep
    /// always does).
    pub fn advance(&mut self, ok: bool) -> (a: ReapAction)
        ensures
            (final(self).stage, a) == reap_next(old(self).stage, ok),
            final(self).task@ == old(self).task@,
    {
        let (stage, action) = match self.stage {
            ReapStage::Sleeping => (ReapStage::Reclaiming, ReapAction::TakeOwnership),
            ReapStage::Reclaiming => if ok {
                (ReapStage::Deleting, ReapAction::Delete)
            } else {
                (ReapStage::Finished, ReapAction::Stop { reported: true })
            },
            ReapStage::Deleting => (ReapStage::Finished, ReapAction::Stop { reported: !ok }),
            ReapStage::Finished => (ReapStage::Finished, ReapAction::Stop { reported: false }),
        };
        self.stage = stage;
        action
    }
}

/// A reaper sleeps, then takes the file back, and deletes it only once it holds it again;
/// whatever fails, it stops within three steps, and a failure is reported.
pub proof fn lemma_reaper_order(took: bool, deleted: bool)
    ensures
        reap_next(ReapStage::Sleeping, true) == (ReapStage::Reclaiming, ReapAction::TakeOwnership),
        took ==> reap_next(ReapStage::Reclaiming, took) == (ReapStage::Deleting, ReapAction::Delete),
        !took ==> reap_next(ReapStage::Reclaiming, took) == (
            ReapStage::Finished,
            ReapAction::Stop { reported: true },
        ),
        reap_next(ReapStage::Deleting, deleted) == (
            ReapStage::Finished,
            ReapAction::Stop { reported: !deleted },
        ),
{
}

} // verus!
