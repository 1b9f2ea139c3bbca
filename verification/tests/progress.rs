use aqueduct::progress::{Progress, ProgressManager, ProgressStatus, ProgressUpdate, TaskProgress};
use aqueduct::task::TaskId;

fn running(name: &str, current: u64) -> Progress {
    Progress::new_running(name.to_string(), "working", 10, current)
}

#[test]
fn new_waiting_sets_every_field() {
    let p = Progress::new_waiting("load".to_string(), "queued", 5, 1);
    assert_eq!(p.task, "load");
    assert_eq!(p.message, "queued");
    assert_eq!(p.max, 5);
    assert_eq!(p.current, 1);
    assert_eq!(p.status, ProgressStatus::Waiting);
}

#[test]
fn new_running_sets_every_field() {
    let p = Progress::new_running("save".to_string(), "busy", 7, 3);
    assert_eq!(p.task, "save");
    assert_eq!(p.message, "busy");
    assert_eq!(p.max, 7);
    assert_eq!(p.current, 3);
    assert_eq!(p.status, ProgressStatus::Running);
}

#[test]
fn set_below_max_keeps_max() {
    let mut p = running("a", 0);
    p.set(4);
    assert_eq!(p.current, 4);
    assert_eq!(p.max, 10);
}

#[test]
fn set_above_max_raises_max() {
    let mut p = running("a", 0);
    p.set(25);
    assert_eq!(p.current, 25);
    assert_eq!(p.max, 25);
    assert!(p.current <= p.max);
}

#[test]
fn set_at_max_keeps_max() {
    let mut p = running("a", 0);
    p.set(10);
    assert_eq!(p.current, 10);
    assert_eq!(p.max, 10);
}

#[test]
fn setters_change_one_field() {
    let mut p = running("a", 2);
    p.set_max(3);
    assert_eq!(p, Progress { max: 3, ..running("a", 2) });
    p.set_message("done");
    assert_eq!(p.message, "done");
    assert_eq!(p.max, 3);
    p.set_status(ProgressStatus::Successful);
    assert_eq!(p.status, ProgressStatus::Successful);
    assert_eq!(p.current, 2);
    p.set_status(ProgressStatus::Error);
    assert_eq!(p.status, ProgressStatus::Error);
}

#[test]
fn fresh_task_ids_differ_and_are_nonzero() {
    let a = TaskId::new();
    let b = TaskId::new();
    let c = TaskId::default();
    assert_ne!(a, b);
    assert_ne!(b, c);
    assert_ne!(a, c);
}

#[test]
fn report_after_add_task() {
    let mut m = ProgressManager::new();
    let id = TaskId::new();
    m.add_task(id.clone(), running("main", 1));
    let report = m.send_task_progress(id.clone());
    assert_eq!(report, Some(TaskProgress::new(id, running("main", 1), vec![])));
}

#[test]
fn unknown_task_reports_nothing() {
    let m = ProgressManager::default();
    assert_eq!(m.send_task_progress(TaskId::new()), None);
}

#[test]
fn add_task_again_replaces_progress_and_keeps_subtasks() {
    let mut m = ProgressManager::new();
    let id = TaskId::new();
    let sub = TaskId::new();
    m.add_task(id.clone(), running("main", 1));
    m.add_subtask(&id, sub.clone(), running("sub", 2));
    m.add_task(id.clone(), running("main", 5));
    assert_eq!(
        m.send_task_progress(id.clone()),
        Some(TaskProgress::new(id, running("main", 5), vec![running("sub", 2)]))
    );
}

#[test]
fn subtask_reports_go_to_parent() {
    let mut m = ProgressManager::new();
    let id = TaskId::new();
    let s1 = TaskId::new();
    let s2 = TaskId::new();
    m.add_task(id.clone(), running("main", 0));
    m.add_subtask(&id, s1.clone(), running("first", 1));
    m.add_subtask(&id, s2.clone(), running("second", 2));
    let expected = Some(TaskProgress::new(
        id.clone(),
        running("main", 0),
        vec![running("first", 1), running("second", 2)],
    ));
    assert_eq!(m.send_task_progress(s2.clone()), expected);
    assert_eq!(m.send_task_progress(s1), expected);
    assert_eq!(m.send_task_progress(id), expected);
}

#[test]
fn subtask_of_unknown_task_is_ignored() {
    let mut m = ProgressManager::new();
    let id = TaskId::new();
    let sub = TaskId::new();
    m.add_subtask(&id, sub.clone(), running("sub", 1));
    assert_eq!(m.send_task_progress(sub), None);
    assert_eq!(m.send_task_progress(id), None);
}

#[test]
fn update_task_replaces_progress() {
    let mut m = ProgressManager::new();
    let id = TaskId::new();
    let sub = TaskId::new();
    m.add_task(id.clone(), running("main", 0));
    m.add_subtask(&id, sub.clone(), running("sub", 0));
    m.update_task(sub.clone(), running("sub", 9));
    m.update_task(id.clone(), running("main", 3));
    assert_eq!(
        m.send_task_progress(id.clone()),
        Some(TaskProgress::new(id, running("main", 3), vec![running("sub", 9)]))
    );
}

#[test]
fn update_of_unknown_task_changes_nothing() {
    let mut m = ProgressManager::new();
    let id = TaskId::new();
    m.update_task(id.clone(), running("ghost", 1));
    assert_eq!(m.send_task_progress(id), None);
}

#[test]
fn drop_task_forgets_task_and_subtasks() {
    let mut m = ProgressManager::new();
    let id = TaskId::new();
    let sub = TaskId::new();
    let other = TaskId::new();
    m.add_task(id.clone(), running("main", 0));
    m.add_subtask(&id, sub.clone(), running("sub", 0));
    m.add_task(other.clone(), running("other", 4));
    m.drop_task(id.clone());
    assert_eq!(m.send_task_progress(id), None);
    assert_eq!(m.send_task_progress(sub), None);
    assert_eq!(
        m.send_task_progress(other.clone()),
        Some(TaskProgress::new(other, running("other", 4), vec![]))
    );
}

#[test]
fn drop_of_unknown_task_changes_nothing() {
    let mut m = ProgressManager::new();
    let id = TaskId::new();
    m.add_task(id.clone(), running("main", 0));
    m.drop_task(TaskId::new());
    assert_eq!(
        m.send_task_progress(id.clone()),
        Some(TaskProgress::new(id, running("main", 0), vec![]))
    );
}

#[test]
fn apply_update_then_report() {
    let mut m = ProgressManager::new();
    let id = TaskId::new();
    m.add_task(id.clone(), running("main", 0));
    let report = m.apply(ProgressUpdate::Update { task_id: id.clone(), progress: running("main", 7) });
    assert_eq!(report, Some(TaskProgress::new(id, running("main", 7), vec![])));
}

#[test]
fn apply_add_subtask_then_report() {
    let mut m = ProgressManager::new();
    let id = TaskId::new();
    let sub = TaskId::new();
    m.add_task(id.clone(), running("main", 0));
    let report = m.apply(ProgressUpdate::AddSubtask {
        task_id: id.clone(),
        subtask_id: sub,
        progress: running("sub", 1),
    });
    assert_eq!(report, Some(TaskProgress::new(id, running("main", 0), vec![running("sub", 1)])));
}

#[test]
fn apply_on_unknown_task_reports_nothing() {
    let mut m = ProgressManager::new();
    let report = m.apply(ProgressUpdate::Update { task_id: TaskId::new(), progress: running("x", 1) });
    assert_eq!(report, None);
}

#[test]
fn fresh_task_id_is_not_zero() {
    assert_ne!(format!("{:?}", TaskId::new()), "TaskId(0)");
}

#[test]
fn dropping_a_task_forgets_a_shared_subtask() {
    let mut m = ProgressManager::new();
    let a = TaskId::new();
    let b = TaskId::new();
    let sub = TaskId::new();
    m.add_task(a.clone(), running("a", 0));
    m.add_task(b.clone(), running("b", 0));
    m.add_subtask(&a, sub.clone(), running("sub", 1));
    m.add_subtask(&b, sub.clone(), running("sub", 2));
    assert_eq!(
        m.send_task_progress(sub.clone()),
        Some(TaskProgress::new(b.clone(), running("b", 0), vec![running("sub", 2)]))
    );
    m.drop_task(a);
    assert_eq!(m.send_task_progress(sub), None);
    assert_eq!(
        m.send_task_progress(b.clone()),
        Some(TaskProgress::new(b, running("b", 0), vec![]))
    );
}
