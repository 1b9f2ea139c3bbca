use vstd::prelude::*;
use std::collections::BTreeMap;

use crate::task::TaskId;

verus! {

/// Where a task stands in its life.
#[derive(Debug, Clone, Copy, PartialEq, Eq, Structural)]
pub enum ProgressStatus {
    Waiting,
    Running,
    Error,
    Successful,
}

/// The progress of one task: its name, status, a message and a
/// `current` out of `max` counter.
#[derive(Debug, Clone, PartialEq, Eq)]
pub struct Progress {
    pub task: String,
    pub status: ProgressStatus,
    pub message: String,
    pub max: u64,
    pub current: u64,
}

impl Progress {
    /// A progress in the `Waiting` status.
    pub fn new_waiting(task: String, message: &str, max: u64, current: u64) -> (p: Self)
        ensures
            p.task == task,
            p.message@ == message@,
            p.max == max,
            p.current == current,
            p.status == ProgressStatus::Waiting,
    {
        Progress { message: message.to_owned(), max, current, task, status: ProgressStatus::Waiting }
    }

    /// A progress in the `Running` status.
    pub fn new_running(task: String, message: &str, max: u64, current: u64) -> (p: Self)
        ensures
            p.task == task,
            p.message@ == message@,
            p.max == max,
            p.current == current,
            p.status == ProgressStatus::Running,
    {
        Progress { message: message.to_owned(), max, current, task, status: ProgressStatus::Running }
    }

    /// Sets the counter's upper bound, and nothing else.
    pub fn set_max(&mut self, max: u64)
        ensures
            *final(self) == (Progress { max, ..*old(self) }),
    {
        self.max = max;
    }

    /// Replaces the message, and nothing else.
    pub fn set_message(&mut self, text: &str)
        ensures
            final(self).message@ == text@,
            final(self).task == old(self).task,
            final(self).status == old(self).status,
            final(self).max == old(self).max,
            final(self).current == old(self).current,
    {
        self.message = text.to_owned();
    }

    /// Sets the counter to `value`, raising `max` to `value` when `value`
    /// is above it.
    pub fn set(&mut self, value: u64)
        ensures
            final(self).current == value,
            final(self).current <= final(self).max,
            final(self).max == if value > old(self).max { value } else { old(self).max },
            final(self).task == old(self).task,
            final(self).status == old(self).status,
            final(self).message == old(self).message,
    {
        if value > self.max {
            self.set_max(value);
        }
        self.current = value;
    }

    /// Sets the status, and nothing else.
    pub fn set_status(&mut self, status: ProgressStatus)
        ensures
            *final(self) == (Progress { status, ..*old(self) }),
    {
        self.status = status;
    }
}

/// A copy of `p`, field by field.
pub(crate) fn copy_progress(p: &Progress) -> (c: Progress)
    ensures
        c == *p,
{
    Progress {
        task: p.task.clone(),
        status: p.status,
        message: p.message.clone(),
        max: p.max,
        current: p.current,
    }
}

/// What is reported of a task: its own progress and those of its subtasks.
#[derive(Debug, Clone, PartialEq, Eq)]
pub struct TaskProgress {
    task_id: TaskId,
    progress: Progress,
    subtask_progress: Vec<Progress>,
}

impl View for TaskProgress {
    type V = (u64, Progress, Seq<Progress>);

    closed spec fn view(&self) -> (u64, Progress, Seq<Progress>) {
        (self.task_id@, self.progress, self.subtask_progress@)
    }
}

impl TaskProgress {
    pub fn new(task_id: TaskId, progress: Progress, subtask_progress: Vec<Progress>) -> (tp: Self)
        ensures
            tp@ == (task_id@, progress, subtask_progress@),
    {
        TaskProgress { task_id, progress, subtask_progress }
    }
}

/// What a progress manager knows: each task's subtasks in the order they
/// were added, each task's progress, and each subtask's parent task.
#[verifier::ext_equal]
pub struct ProgressState {
    pub tasks: Map<u64, Seq<u64>>,
    pub progresses: Map<u64, Progress>,
    pub parents: Map<u64, u64>,
}

/// The progresses of `subtasks`, in order, skipping those without one.
pub open spec fn subtask_progresses(subtasks: Seq<u64>, progresses: Map<u64, Progress>) -> Seq<
    Progress,
>
    decreases subtasks.len(),
{
    if subtasks.len() == 0 {
        Seq::empty()
    } else {
        let rest = subtask_progresses(subtasks.drop_last(), progresses);
        if progresses.contains_key(subtasks.last()) {
            rest.push(progresses[subtasks.last()])
        } else {
            rest
        }
    }
}

impl ProgressState {
    /// Every subtask that has a parent is listed among the subtasks of a
    /// task that is still known.
    pub open spec fn wf(self) -> bool {
        forall|s: u64|
            #[trigger] self.parents.contains_key(s) ==> {
                &&& self.tasks.contains_key(self.parents[s])
                &&& self.tasks[self.parents[s]].contains(s)
            }
    }

    /// Nothing known.
    pub open spec fn empty() -> Self {
        ProgressState { tasks: Map::empty(), progresses: Map::empty(), parents: Map::empty() }
    }

    /// `task_id` is tracked with `progress`; a task already known keeps its
    /// subtasks.
    pub open spec fn add_task(self, task_id: u64, progress: Progress) -> Self {
        ProgressState {
            tasks: if self.tasks.contains_key(task_id) {
                self.tasks
            } else {
                self.tasks.insert(task_id, Seq::empty())
            },
            progresses: self.progresses.insert(task_id, progress),
            parents: self.parents,
        }
    }

    /// `subtask_id` joins the subtasks of `task_id` with `progress`, when
    /// `task_id` is a known task; else nothing changes.
    pub open spec fn add_subtask(self, task_id: u64, subtask_id: u64, progress: Progress) -> Self {
        if self.tasks.contains_key(task_id) {
            ProgressState {
                tasks: self.tasks.insert(task_id, self.tasks[task_id].push(subtask_id)),
                progresses: self.progresses.insert(subtask_id, progress),
                parents: self.parents.insert(subtask_id, task_id),
            }
        } else {
            self
        }
    }

    /// The progress of `task_id` is replaced, when it has one.
    pub open spec fn update_task(self, task_id: u64, progress: Progress) -> Self {
        if self.progresses.contains_key(task_id) {
            ProgressState { progresses: self.progresses.insert(task_id, progress), ..self }
        } else {
            self
        }
    }

    /// `task_id` is forgotten with its progress, and so are the progress
    /// and the parent of each of its subtasks, when it is a known task.
    pub open spec fn drop_task(self, task_id: u64) -> Self {
        if self.tasks.contains_key(task_id) {
            let subtasks = self.tasks[task_id].to_set();
            ProgressState {
                tasks: self.tasks.remove(task_id),
                progresses: self.progresses.remove(task_id).remove_keys(subtasks),
                parents: self.parents.remove_keys(subtasks),
            }
        } else {
            self
        }
    }

    /// The task a report on `task_id` is about: its parent where it has
    /// one, else the task itself.
    pub open spec fn report_target(self, task_id: u64) -> u64 {
        if self.parents.contains_key(task_id) {
            self.parents[task_id]
        } else {
            task_id
        }
    }

    /// The subtasks recorded for `task_id`, none where it is not a task.
    pub open spec fn subtasks_of(self, task_id: u64) -> Seq<u64> {
        if self.tasks.contains_key(task_id) {
            self.tasks[task_id]
        } else {
            Seq::empty()
        }
    }

    /// The report on `task_id`: the target task, its progress and the
    /// progresses of its subtasks; `None` where the target has no progress.
    pub open spec fn report(self, task_id: u64) -> Option<(u64, Progress, Seq<Progress>)> {
        let target = self.report_target(task_id);
        if self.progresses.contains_key(target) {
            Some(
                (
                    target,
                    self.progresses[target],
                    subtask_progresses(self.subtasks_of(target), self.progresses),
                ),
            )
        } else {
            None
        }
    }
}

/// A change to publish to the progress manager: after it is applied, the
/// report on `task_id` is sent.
#[derive(Debug, Clone, PartialEq, Eq)]
pub enum ProgressUpdate {
    /// The progress of `task_id` becomes `progress`.
    Update { task_id: TaskId, progress: Progress },
    /// `subtask_id` joins the subtasks of `task_id` with `progress`.
    AddSubtask { task_id: TaskId, subtask_id: TaskId, progress: Progress },
}

impl ProgressUpdate {
    /// The task whose report is sent once the update is applied.
    pub open spec fn reported_task(self) -> u64 {
        match self {
            ProgressUpdate::Update { task_id, .. } => task_id@,
            ProgressUpdate::AddSubtask { task_id, .. } => task_id@,
        }
    }
}

impl ProgressState {
    /// The state once `update` is applied.
    pub open spec fn apply(self, update: ProgressUpdate) -> Self {
        match update {
            ProgressUpdate::Update { task_id, progress } => self.update_task(task_id@, progress),
            ProgressUpdate::AddSubtask { task_id, subtask_id, progress } => self.add_subtask(
                task_id@,
                subtask_id@,
                progress,
            ),
        }
    }
}

/// The progress of every known task, which subtasks each task has, and
/// which task each subtask belongs to.
#[derive(Debug)]
pub struct ProgressManager {
    tasks: BTreeMap<u64, Vec<u64>>,
    progresses: BTreeMap<u64, Progress>,
    parent_id: BTreeMap<u64, u64>,
}

impl View for ProgressManager {
    type V = ProgressState;

    closed spec fn view(&self) -> ProgressState {
        ProgressState {
            tasks: self.tasks@.map_values(|v: Vec<u64>| v@),
            progresses: self.progresses@,
            parents: self.parent_id@,
        }
    }
}

impl ProgressManager {
    pub fn new() -> (m: Self)
        ensures
            m@ == ProgressState::empty(),
            m@.wf(),
    {
        let m = ProgressManager {
            tasks: BTreeMap::new(),
            progresses: BTreeMap::new(),
            parent_id: BTreeMap::new(),
        };
        assert(m@ =~= ProgressState::empty());
        m
    }

    /// Starts tracking `task_id` with `progress`. A task that is already
    /// known keeps its subtasks; its progress is replaced.
    pub fn add_task(&mut self, task_id: TaskId, progress: Progress)
        ensures
            final(self)@ == old(self)@.add_task(task_id@, progress),
            old(self)@.wf() ==> final(self)@.wf(),
    {
        let id = task_id.raw();
        if !self.tasks.contains_key(&id) {
            self.tasks.insert(id, Vec::new());
        }
        self.progresses.insert(id, progress);
        assert(self@ =~= old(self)@.add_task(id, progress));
    }

    /// Records `subtask_id`, with `progress`, as a subtask of `task_id`.
    /// Nothing changes when `task_id` is not a known task.
    pub fn add_subtask(&mut self, task_id: &TaskId, subtask_id: TaskId, progress: Progress)
        ensures
            final(self)@ == old(self)@.add_subtask(task_id@, subtask_id@, progress),
            old(self)@.wf() ==> final(self)@.wf(),
    {
        let id = task_id.raw();
        let sub = subtask_id.raw();
        if self.tasks.contains_key(&id) {
            let mut subtasks = self.tasks.remove(&id).unwrap();
            let ghost before = subtasks@;
            assert(before == old(self)@.tasks[id]);
            subtasks.push(sub);
            self.tasks.insert(id, subtasks);
            self.progresses.insert(sub, progress);
            self.parent_id.insert(sub, id);
            proof {
                assert(self@ =~= old(self)@.add_subtask(id, sub, progress));
                if old(self)@.wf() {
                    assert forall|s: u64| #[trigger]
                        self@.parents.contains_key(s) implies {
                        &&& self@.tasks.contains_key(self@.parents[s])
                        &&& self@.tasks[self@.parents[s]].contains(s)
                    } by {
                        if s != sub {
                            let p = old(self)@.parents[s];
                            assert(old(self)@.parents.contains_key(s));
                            assert(old(self)@.tasks[p].contains(s));
                            if p == id {
                                let k = choose|k: int| 0 <= k < before.len() && before[k] == s;
                                assert(before.push(sub)[k] == s);
                            }
                        } else {
                            assert(before.push(sub)[before.len() as int] == sub);
                        }
                    }
                }
            }
        }
    }

    /// Replaces the progress of `task_id`; nothing changes when it has none.
    pub fn update_task(&mut self, task_id: TaskId, progress: Progress)
        ensures
            final(self)@ == old(self)@.update_task(task_id@, progress),
            old(self)@.wf() ==> final(self)@.wf(),
    {
        let id = task_id.raw();
        if self.progresses.contains_key(&id) {
            self.progresses.insert(id, progress);
            assert(self@ =~= old(self)@.update_task(id, progress));
        }
    }

    /// Forgets `task_id`: its subtask list, its progress, and the progress
    /// and parent of each of its subtasks. Nothing changes when it is not a
    /// known task.
    pub fn drop_task(&mut self, task_id: TaskId)
        ensures
            final(self)@ == old(self)@.drop_task(task_id@),
            old(self)@.wf() ==> final(self)@.wf(),
    {
        let id = task_id.raw();
        if self.tasks.contains_key(&id) {
            let subtasks = self.tasks.remove(&id).unwrap();
            let ghost subs = subtasks@;
            assert(subs == old(self)@.tasks[id]);
            assert(self@.tasks =~= old(self)@.tasks.remove(id));
            self.progresses.remove(&id);
            let ghost p0 = self.progresses@;
            let ghost q0 = self.parent_id@;
            let n = subtasks.len();
            assert(subs.take(0).to_set() =~= Set::<u64>::empty());
            assert(p0.remove_keys(Set::<u64>::empty()) =~= p0);
            assert(q0.remove_keys(Set::<u64>::empty()) =~= q0);
            for i in 0..n
                invariant
                    n == subs.len(),
                    subtasks@ == subs,
                    self@.tasks == old(self)@.tasks.remove(id),
                    self.progresses@ == p0.remove_keys(subs.take(i as int).to_set()),
                    self.parent_id@ == q0.remove_keys(subs.take(i as int).to_set()),
            {
                let s = subtasks[i];
                self.progresses.remove(&s);
                self.parent_id.remove(&s);
                proof {
                    let before = subs.take(i as int);
                    let after = subs.take(i + 1 as int);
                    assert forall|a: u64| after.contains(a) <==> before.contains(a) || a == s by {
                        if after.contains(a) {
                            let k = choose|k: int| 0 <= k < after.len() && after[k] == a;
                            if k < i {
                                assert(before[k] == a);
                            }
                        }
                        if before.contains(a) {
                            let k = choose|k: int| 0 <= k < before.len() && before[k] == a;
                            assert(after[k] == a);
                        }
                        if a == s {
                            assert(after[i as int] == s);
                        }
                    }
                    assert(after.to_set() =~= before.to_set().insert(s));
                    assert(self.progresses@ =~= p0.remove_keys(after.to_set()));
                    assert(self.parent_id@ =~= q0.remove_keys(after.to_set()));
                }
            }
            proof {
                assert(subs.take(n as int) =~= subs);
                assert(self@ =~= old(self)@.drop_task(id));
                if old(self)@.wf() {
                    assert forall|s: u64| #[trigger]
                        self@.parents.contains_key(s) implies {
                        &&& self@.tasks.contains_key(self@.parents[s])
                        &&& self@.tasks[self@.parents[s]].contains(s)
                    } by {
                        assert(old(self)@.parents.contains_key(s));
                        assert(!subs.to_set().contains(s));
                        if old(self)@.parents[s] == id {
                            assert(subs.contains(s));
                        }
                    }
                }
            }
        }
    }

    /// The report to publish for `task_id`: it is about the parent of
    /// `task_id` where it has one, else about `task_id` itself, and holds
    /// that task's progress and the progresses of its subtasks in the order
    /// they were added. `None` where that task has no progress: then nothing
    /// is published.
    pub fn send_task_progress(&self, task_id: TaskId) -> (r: Option<TaskProgress>)
        ensures
            r matches Some(tp) ==> self@.report(task_id@) == Some(tp@),
            r is None ==> self@.report(task_id@) is None,
    {
        let mut target = task_id.raw();
        match self.parent_id.get(&target) {
            Some(p) => {
                target = *p;
            },
            None => {},
        }
        match self.progresses.get(&target) {
            Some(task_progress) => {
                let mut subtask_progress: Vec<Progress> = Vec::new();
                match self.tasks.get(&target) {
                    Some(subtasks) => {
                        let n = subtasks.len();
                        for i in 0..n
                            invariant
                                n == subtasks@.len(),
                                subtasks@ == self@.tasks[target],
                                subtask_progress@ == subtask_progresses(
                                    subtasks@.take(i as int),
                                    self@.progresses,
                                ),
                        {
                            proof {
                                assert(subtasks@.take(i + 1 as int).drop_last()
                                    =~= subtasks@.take(i as int));
                            }
                            match self.progresses.get(&subtasks[i]) {
                                Some(sp) => {
                                    subtask_progress.push(copy_progress(sp));
                                },
                                None => {},
                            }
                        }
                        proof {
                            assert(subtasks@.take(n as int) =~= subtasks@);
                        }
                    },
                    None => {},
                }
                Some(
                    TaskProgress {
                        task_id: TaskId::from_raw(target),
                        progress: copy_progress(task_progress),
                        subtask_progress,
                    },
                )
            },
            None => None,
        }
    }

    /// Applies `update` and returns the report that is then to be sent on
    /// the task it names (`None`: nothing is sent).
    pub fn apply(&mut self, update: ProgressUpdate) -> (r: Option<TaskProgress>)
        ensures
            final(self)@ == old(self)@.apply(update),
            old(self)@.wf() ==> final(self)@.wf(),
            r matches Some(tp) ==> final(self)@.report(update.reported_task()) == Some(tp@),
            r is None ==> final(self)@.report(update.reported_task()) is None,
    {
        match update {
            ProgressUpdate::Update { task_id, progress } => {
                let report_on = TaskId::from_raw(task_id.raw());
                self.update_task(task_id, progress);
                self.send_task_progress(report_on)
            },
            ProgressUpdate::AddSubtask { task_id, subtask_id, progress } => {
                self.add_subtask(&task_id, subtask_id, progress);
                self.send_task_progress(task_id)
            },
        }
    }
}

impl Default for ProgressManager {
    fn default() -> (m: Self)
        ensures
            m@ == ProgressState::empty(),
    {
        Self::new()
    }
}

/// A report on a task that was just added, and that is no subtask, is
/// about that task and carries the progress it was added with.
pub proof fn lemma_report_after_add_task(s: ProgressState, task_id: u64, progress: Progress)
    requires
        !s.parents.contains_key(task_id),
    ensures
        s.add_task(task_id, progress).report(task_id) matches Some(r) && r.0 == task_id && r.1
            == progress,
{
}

/// After the progress of a task that is no subtask is updated, a report
/// on it carries the new progress.
pub proof fn lemma_report_after_update_task(s: ProgressState, task_id: u64, progress: Progress)
    requires
        s.progresses.contains_key(task_id),
        !s.parents.contains_key(task_id),
    ensures
        s.update_task(task_id, progress).report(task_id) matches Some(r) && r.0 == task_id && r.1
            == progress,
{
}

/// Updating a task that has no progress changes nothing.
pub proof fn lemma_update_unknown_task(s: ProgressState, task_id: u64, progress: Progress)
    requires
        !s.progresses.contains_key(task_id),
    ensures
        s.update_task(task_id, progress) == s,
{
}

/// A report on a subtask is the report on its parent, where the parent is
/// no subtask itself.
pub proof fn lemma_subtask_reports_parent(s: ProgressState, subtask_id: u64)
    requires
        s.parents.contains_key(subtask_id),
        !s.parents.contains_key(s.parents[subtask_id]),
    ensures
        s.report(subtask_id) == s.report(s.parents[subtask_id]),
{
}

/// Once a subtask is added under a task that has a progress and is no
/// subtask, the report on the subtask is about that task, and the
/// progress of the new subtask comes last among its subtasks' progresses.
pub proof fn lemma_report_after_add_subtask(
    s: ProgressState,
    task_id: u64,
    subtask_id: u64,
    progress: Progress,
)
    requires
        s.tasks.contains_key(task_id),
        s.progresses.contains_key(task_id),
        !s.parents.contains_key(task_id),
        task_id != subtask_id,
    ensures
        s.add_subtask(task_id, subtask_id, progress).report(subtask_id) matches Some(r) && r.0
            == task_id && r.1 == s.progresses[task_id] && r.2.len() > 0 && r.2.last() == progress,
{
    let t = s.add_subtask(task_id, subtask_id, progress);
    assert(t.subtasks_of(task_id).last() == subtask_id);
    assert(t.subtasks_of(task_id).len() > 0);
}

/// Once a task that is no subtask is dropped, nothing is reported on it
/// nor on any of its subtasks.
pub proof fn lemma_nothing_reported_after_drop(s: ProgressState, task_id: u64)
    requires
        s.tasks.contains_key(task_id),
        !s.parents.contains_key(task_id),
    ensures
        s.drop_task(task_id).report(task_id) is None,
        forall|sub: u64|
            s.tasks[task_id].contains(sub) ==> (#[trigger] s.drop_task(task_id).report(sub)) is None,
{
    let t = s.drop_task(task_id);
    assert forall|sub: u64| s.tasks[task_id].contains(sub) implies (#[trigger] t.report(
        sub,
    )) is None by {
        assert(s.tasks[task_id].to_set().contains(sub));
    }
}

/// The subtask progresses of a report are exactly the progresses of the
/// listed subtasks that have one, each once, in the order the subtasks are
/// listed: the list keeps those subtasks and maps each to its progress.
pub proof fn lemma_subtask_progresses_keep_every_subtask(
    subtasks: Seq<u64>,
    progresses: Map<u64, Progress>,
)
    ensures
        subtask_progresses(subtasks, progresses) == subtasks.filter(
            |x: u64| progresses.contains_key(x),
        ).map_values(|x: u64| progresses[x]),
    decreases subtasks.len(),
{
    reveal(Seq::filter);
    let has = |x: u64| progresses.contains_key(x);
    let get = |x: u64| progresses[x];
    if subtasks.len() > 0 {
        lemma_subtask_progresses_keep_every_subtask(subtasks.drop_last(), progresses);
        let kept = subtasks.drop_last().filter(has);
        if has(subtasks.last()) {
            assert(kept.push(subtasks.last()).map_values(get) =~= kept.map_values(get).push(
                get(subtasks.last()),
            ));
        }
    } else {
        assert(subtasks.filter(has).map_values(get) =~= Seq::<Progress>::empty());
    }
}

/// A report lists the progress of every subtask of the reported task that
/// has one, in the order the subtasks were added, and nothing else.
pub proof fn lemma_report_lists_every_subtask(s: ProgressState, task_id: u64)
    requires
        s.progresses.contains_key(s.report_target(task_id)),
        s.tasks.contains_key(s.report_target(task_id)),
    ensures
        s.report(task_id) matches Some(r) && r.2 == s.tasks[r.0].filter(
            |x: u64| s.progresses.contains_key(x),
        ).map_values(|x: u64| s.progresses[x]),
{
    lemma_subtask_progresses_keep_every_subtask(
        s.tasks[s.report_target(task_id)],
        s.progresses,
    );
}

/// Filing a subtask under a task that is not known changes nothing.
pub proof fn lemma_add_subtask_to_unknown_task(
    s: ProgressState,
    task_id: u64,
    subtask_id: u64,
    progress: Progress,
)
    requires
        !s.tasks.contains_key(task_id),
    ensures
        s.add_subtask(task_id, subtask_id, progress) == s,
{
}

/// Filing a subtask under a known task appends it to that task's subtasks,
/// gives it `progress` and the task as parent, and leaves every other task,
/// progress and parent as it was.
pub proof fn lemma_add_subtask_to_known_task(
    s: ProgressState,
    task_id: u64,
    subtask_id: u64,
    progress: Progress,
)
    requires
        s.tasks.contains_key(task_id),
    ensures
        ({
            let t = s.add_subtask(task_id, subtask_id, progress);
            &&& t.tasks.dom() == s.tasks.dom()
            &&& t.tasks[task_id] == s.tasks[task_id].push(subtask_id)
            &&& forall|k: u64| k != task_id && s.tasks.contains_key(k) ==> t.tasks[k] == s.tasks[k]
            &&& t.progresses.contains_key(subtask_id) && t.progresses[subtask_id] == progress
            &&& t.parents.contains_key(subtask_id) && t.parents[subtask_id] == task_id
            &&& forall|k: u64|
                k != subtask_id ==> (t.progresses.contains_key(k) == s.progresses.contains_key(k))
                    && (s.progresses.contains_key(k) ==> t.progresses[k] == s.progresses[k])
            &&& forall|k: u64|
                k != subtask_id ==> (t.parents.contains_key(k) == s.parents.contains_key(k)) && (
                s.parents.contains_key(k) ==> t.parents[k] == s.parents[k])
        }),
{
    let t = s.add_subtask(task_id, subtask_id, progress);
    assert(t.tasks.dom() =~= s.tasks.dom());
}

/// Applying an update that sets a task's progress changes exactly what
/// `update_task` changes, whatever the new progress holds.
pub proof fn lemma_apply_update_is_update_task(
    s: ProgressState,
    task_id: TaskId,
    progress: Progress,
)
    ensures
        s.apply(ProgressUpdate::Update { task_id, progress }) == s.update_task(task_id@, progress),
        s.apply(ProgressUpdate::Update { task_id, progress }).tasks == s.tasks,
        s.apply(ProgressUpdate::Update { task_id, progress }).parents == s.parents,
{
}

/// Applying an update that files a subtask changes exactly what
/// `add_subtask` changes.
pub proof fn lemma_apply_add_subtask_is_add_subtask(
    s: ProgressState,
    task_id: TaskId,
    subtask_id: TaskId,
    progress: Progress,
)
    ensures
        s.apply(ProgressUpdate::AddSubtask { task_id, subtask_id, progress }) == s.add_subtask(
            task_id@,
            subtask_id@,
            progress,
        ),
{
}

/// After an update to a task that has a progress and is no subtask, the
/// report sent is on that task and carries the new progress, whatever its
/// status; the task's subtasks are kept.
pub proof fn lemma_report_after_apply_update(s: ProgressState, task_id: TaskId, progress: Progress)
    requires
        s.progresses.contains_key(task_id@),
        !s.parents.contains_key(task_id@),
    ensures
        ({
            let t = s.apply(ProgressUpdate::Update { task_id, progress });
            &&& t.report(task_id@) matches Some(r) && r.0 == task_id@ && r.1 == progress
            &&& t.tasks == s.tasks
            &&& t.progresses[task_id@] == progress
        }),
{
}

/// Adding a task gives it `progress`, keeps its subtasks where it was
/// already known (none where it was not), and leaves every other task,
/// progress and parent as it was.
pub proof fn lemma_add_task_effects(s: ProgressState, task_id: u64, progress: Progress)
    ensures
        ({
            let t = s.add_task(task_id, progress);
            &&& t.progresses.contains_key(task_id) && t.progresses[task_id] == progress
            &&& t.tasks.contains_key(task_id)
            &&& t.tasks[task_id] == if s.tasks.contains_key(task_id) {
                s.tasks[task_id]
            } else {
                Seq::empty()
            }
            &&& forall|k: u64|
                k != task_id ==> (t.tasks.contains_key(k) == s.tasks.contains_key(k)) && (
                s.tasks.contains_key(k) ==> t.tasks[k] == s.tasks[k])
            &&& forall|k: u64|
                k != task_id ==> (t.progresses.contains_key(k) == s.progresses.contains_key(k))
                    && (s.progresses.contains_key(k) ==> t.progresses[k] == s.progresses[k])
            &&& t.parents == s.parents
        }),
{
}

/// Updating a task replaces its progress where it has one, and changes
/// nothing else: no task, subtask list or parent, and no other progress.
pub proof fn lemma_update_task_effects(s: ProgressState, task_id: u64, progress: Progress)
    ensures
        ({
            let t = s.update_task(task_id, progress);
            &&& t.tasks == s.tasks
            &&& t.parents == s.parents
            &&& t.progresses.contains_key(task_id) == s.progresses.contains_key(task_id)
            &&& s.progresses.contains_key(task_id) ==> t.progresses[task_id] == progress
            &&& forall|k: u64|
                k != task_id ==> (t.progresses.contains_key(k) == s.progresses.contains_key(k))
                    && (s.progresses.contains_key(k) ==> t.progresses[k] == s.progresses[k])
        }),
{
}

/// Dropping a known task forgets it, its progress, and the progress and
/// parent of each of its subtasks; every other task, and the progress and
/// parent of every task that is neither it nor one of its subtasks, stay as
/// they were. Dropping an unknown task changes nothing.
pub proof fn lemma_drop_task_effects(s: ProgressState, task_id: u64)
    ensures
        !s.tasks.contains_key(task_id) ==> s.drop_task(task_id) == s,
        s.tasks.contains_key(task_id) ==> {
            let t = s.drop_task(task_id);
            let subs = s.tasks[task_id];
            &&& !t.tasks.contains_key(task_id)
            &&& !t.progresses.contains_key(task_id)
            &&& forall|k: u64| subs.contains(k) ==> !t.progresses.contains_key(k)
                && !t.parents.contains_key(k)
            &&& forall|k: u64|
                k != task_id ==> (t.tasks.contains_key(k) == s.tasks.contains_key(k)) && (
                s.tasks.contains_key(k) ==> t.tasks[k] == s.tasks[k])
            &&& forall|k: u64|
                k != task_id && !subs.contains(k) ==> (t.progresses.contains_key(k)
                    == s.progresses.contains_key(k)) && (s.progresses.contains_key(k)
                    ==> t.progresses[k] == s.progresses[k])
            &&& forall|k: u64|
                !subs.contains(k) ==> (t.parents.contains_key(k) == s.parents.contains_key(k)) && (
                s.parents.contains_key(k) ==> t.parents[k] == s.parents[k])
        },
{
    if s.tasks.contains_key(task_id) {
        let subs = s.tasks[task_id];
        assert forall|k: u64| subs.contains(k) implies subs.to_set().contains(k) by {}
        assert forall|k: u64| !subs.contains(k) implies !subs.to_set().contains(k) by {}
    }
}

/// A report on a task is about its parent where it has one, else about the
/// task itself; it exists exactly when that task has a progress, and then
/// carries that progress.
pub proof fn lemma_report_target(s: ProgressState, task_id: u64)
    ensures
        ({
            let target = if s.parents.contains_key(task_id) {
                s.parents[task_id]
            } else {
                task_id
            };
            &&& s.report(task_id) is Some <==> s.progresses.contains_key(target)
            &&& s.report(task_id) matches Some(r) ==> r.0 == target && r.1 == s.progresses[target]
        }),
{
}

} // verus!
