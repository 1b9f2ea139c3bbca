use vstd::prelude::*;

use crate::progress::{copy_progress, Progress, ProgressStatus, ProgressUpdate};

verus! {

/// Draws a fresh identifier from `lazy_id`.
///
/// Calls `lazy_id::Id::new()` and reads it with `Id::get`. The crate
/// documents that an initialised id is never zero; the value comes from a
/// process-wide counter, so nothing more is stated of it (in particular
/// not that it differs from earlier ones, which holds but rests on global
/// state). The crate aborts the process once 2^63 ids have been handed out.
#[verifier::external_body]
fn fresh_id() -> (id: u64)
    ensures
        id != 0,
{
    lazy_id::Id::new().get()
}

/// Identifies a task; fresh ones come from a process-wide counter.
#[derive(Debug, Clone, PartialEq, Eq, PartialOrd, Ord, Structural)]
pub struct TaskId(u64);

impl View for TaskId {
    type V = u64;

    closed spec fn view(&self) -> u64 {
        self.0
    }
}

impl TaskId {
    /// A fresh task id.
    pub fn new() -> (id: Self)
        ensures
            id@ != 0,
    {
        TaskId(fresh_id())
    }

    /// The id whose value is `value`.
    pub(crate) fn from_raw(value: u64) -> (id: Self)
        ensures
            id@ == value,
    {
        TaskId(value)
    }

    /// The value of this id.
    pub(crate) fn raw(&self) -> (value: u64)
        ensures
            value == self@,
    {
        self.0
    }
}

impl Default for TaskId {
    fn default() -> (id: Self)
        ensures
            id@ != 0,
    {
        Self::new()
    }
}

/// What a task knows of itself while it runs: its id, its latest progress,
/// and whether its progress is published to the progress manager.
#[derive(Debug, Clone)]
pub struct TaskHandle {
    pub progress: Progress,
    pub task_id: TaskId,
    send_progress: bool,
}

impl TaskHandle {
    /// Whether this handle publishes its progress.
    pub closed spec fn sends_progress(&self) -> bool {
        self.send_progress
    }

    /// The progress this handle holds.
    pub closed spec fn held_progress(&self) -> Progress {
        self.progress
    }

    /// The task this handle belongs to.
    pub closed spec fn held_task_id(&self) -> TaskId {
        self.task_id
    }

    /// A handle that publishes its progress.
    pub fn new(progress: Progress, task_id: TaskId) -> (h: Self)
        ensures
            h.held_progress() == progress,
            h.held_task_id() == task_id,
            h.sends_progress(),
    {
        TaskHandle { progress, task_id, send_progress: true }
    }

    /// A handle that keeps its progress to itself.
    pub fn new_silent(progress: Progress, task_id: TaskId) -> (h: Self)
        ensures
            h.held_progress() == progress,
            h.held_task_id() == task_id,
            !h.sends_progress(),
    {
        TaskHandle { progress, task_id, send_progress: false }
    }

    /// The handle of a subtask: it publishes its progress when this one does.
    fn subtask_handle(&self, progress: Progress, task_id: TaskId) -> (h: Self)
        ensures
            h.held_progress() == progress,
            h.held_task_id() == task_id,
            h.sends_progress() == self.sends_progress(),
    {
        TaskHandle { progress, task_id, send_progress: self.send_progress }
    }

    /// Registers the subtask `name` with id `subtask_id`. Returns the
    /// subtask's handle, waiting with an empty message and a counter at 0 of
    /// 0, and, where this handle publishes its progress, the change that
    /// adds the subtask under the handle's own task in the progress manager.
    pub fn register(&self, name: String, subtask_id: TaskId) -> (r: (
        Self,
        Option<ProgressUpdate>,
    ))
        ensures
            r.0.held_task_id() == subtask_id,
            r.0.held_progress().task == name,
            r.0.held_progress().status == ProgressStatus::Waiting,
            r.0.held_progress().message@ == Seq::<char>::empty(),
            r.0.held_progress().max == 0,
            r.0.held_progress().current == 0,
            r.0.sends_progress() == self.sends_progress(),
            self.sends_progress() ==> r.1 == Some(
                ProgressUpdate::AddSubtask {
                    task_id: self.held_task_id(),
                    subtask_id,
                    progress: r.0.held_progress(),
                },
            ),
            !self.sends_progress() ==> r.1 is None,
    {
        let subtask_ref = TaskId::from_raw(subtask_id.raw());
        let handle = self.subtask_handle(Progress::new_waiting(name, "", 0, 0), subtask_id);
        proof {
            reveal_strlit("");
        }
        if self.send_progress {
            let update = ProgressUpdate::AddSubtask {
                task_id: TaskId::from_raw(self.task_id.raw()),
                subtask_id: subtask_ref,
                progress: copy_progress(&handle.progress),
            };
            (handle, Some(update))
        } else {
            (handle, None)
        }
    }

    /// Lets `f` edit a copy of the progress and keeps the result: there is a
    /// reference, holding the old progress when `f` is called on it, that
    /// `f` leaves holding the new one. Where this handle publishes its
    /// progress, also returns the update that carries the new progress.
    pub fn progress<F: FnMut(&mut Progress)>(&mut self, mut f: F) -> (r: Option<ProgressUpdate>)
        requires
            forall|q: &mut Progress| call_requires(f, (q,)),
        ensures
            exists|q: &mut Progress|
                *q == old(self).held_progress() && call_ensures(f, (q,), ()) && *final(q)
                    == final(self).held_progress(),
            final(self).held_task_id() == old(self).held_task_id(),
            final(self).sends_progress() == old(self).sends_progress(),
            old(self).sends_progress() ==> r == Some(
                ProgressUpdate::Update {
                    task_id: old(self).held_task_id(),
                    progress: final(self).held_progress(),
                },
            ),
            !old(self).sends_progress() ==> r is None,
    {
        let mut progress = copy_progress(&self.progress);
        f(&mut progress);
        self.progress = copy_progress(&progress);
        if self.send_progress {
            Some(ProgressUpdate::Update { task_id: TaskId::from_raw(self.task_id.raw()), progress })
        } else {
            None
        }
    }

    /// Marks the handle's task as running before a subtask is started on
    /// it. The result is what `progress` gives for that edit.
    pub fn run(&mut self) -> (r: Option<ProgressUpdate>)
        ensures
            final(self).held_progress() == (Progress {
                status: ProgressStatus::Running,
                ..old(self).held_progress()
            }),
            final(self).held_task_id() == old(self).held_task_id(),
            final(self).sends_progress() == old(self).sends_progress(),
            old(self).sends_progress() ==> r == Some(
                ProgressUpdate::Update {
                    task_id: old(self).held_task_id(),
                    progress: final(self).held_progress(),
                },
            ),
            !old(self).sends_progress() ==> r is None,
    {
        let mut progress = copy_progress(&self.progress);
        progress.set_status(ProgressStatus::Running);
        self.progress = copy_progress(&progress);
        if self.send_progress {
            Some(ProgressUpdate::Update { task_id: TaskId::from_raw(self.task_id.raw()), progress })
        } else {
            None
        }
    }
}

/// A silent handle stays silent through any sequence of calls: in a
/// family of handles where each one after the first was made from an
/// earlier one (`made_from[i] < i`) by `register`, `progress` or `run`, all
/// of which keep whether a handle publishes, no handle publishes when the
/// first does not. Since `register`, `progress` and `run` return no update
/// on a handle that does not publish, none of these calls hands anything
/// to the progress manager.
pub proof fn lemma_silent_handles_stay_silent(handles: Seq<TaskHandle>, made_from: Seq<int>)
    requires
        handles.len() > 0,
        made_from.len() == handles.len(),
        !handles[0].sends_progress(),
        forall|i: int|
            0 < i < handles.len() ==> 0 <= #[trigger] made_from[i] < i
                && handles[i].sends_progress() == handles[made_from[i]].sends_progress(),
    ensures
        forall|i: int| 0 <= i < handles.len() ==> !(#[trigger] handles[i].sends_progress()),
    decreases handles.len(),
{
    if handles.len() > 1 {
        let n = handles.len() - 1;
        lemma_silent_handles_stay_silent(handles.drop_last(), made_from.drop_last());
        assert forall|i: int| 0 <= i < handles.len() implies !(#[trigger] handles[
            i
        ].sends_progress()) by {
            if i < n {
                assert(handles.drop_last()[i] == handles[i]);
            } else if i == n {
                let j = made_from[n];
                assert(handles.drop_last()[j] == handles[j]);
            }
        }
    }
}

} // verus!
