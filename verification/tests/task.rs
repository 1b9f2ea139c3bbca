use aqueduct::progress::{Progress, ProgressManager, ProgressStatus, ProgressUpdate, TaskProgress};
use aqueduct::task::{TaskHandle, TaskId};

fn waiting(name: &str) -> Progress {
    Progress::new_waiting(name.to_string(), "", 0, 0)
}

#[test]
fn handle_constructors() {
    let id = TaskId::new();
    let h = TaskHandle::new(waiting("main"), id.clone());
    assert_eq!(h.task_id, id);
    assert_eq!(h.progress, waiting("main"));
    let s = TaskHandle::new_silent(waiting("quiet"), id.clone());
    assert_eq!(s.task_id, id);
    assert_eq!(s.progress, waiting("quiet"));
}

#[test]
fn register_files_subtask_when_publishing() {
    let id = TaskId::new();
    let sub = TaskId::new();
    let h = TaskHandle::new(waiting("main"), id.clone());
    let (child, update) = h.register("child".to_string(), sub.clone());
    assert_eq!(child.task_id, sub);
    assert_eq!(child.progress, Progress::new_waiting("child".to_string(), "", 0, 0));
    assert_eq!(
        update,
        Some(ProgressUpdate::AddSubtask { task_id: id, subtask_id: sub, progress: waiting("child") })
    );
}

#[test]
fn register_on_silent_handle_publishes_nothing() {
    let h = TaskHandle::new_silent(waiting("main"), TaskId::new());
    let (child, update) = h.register("child".to_string(), TaskId::new());
    assert_eq!(update, None);
    let (mut grandchild, grandchild_update) =
        child.register("grandchild".to_string(), TaskId::new());
    assert_eq!(grandchild_update, None);
    assert_eq!(grandchild.progress(|p| p.set(2)), None);
    assert_eq!(grandchild.run(), None);
    let mut child = child;
    assert_eq!(child.run(), None);
}

#[test]
fn subtask_of_publishing_handle_publishes() {
    let h = TaskHandle::new(waiting("main"), TaskId::new());
    let (mut child, _) = h.register("child".to_string(), TaskId::new());
    assert!(child.progress(|p| p.set(1)).is_some());
}

#[test]
fn progress_edits_and_publishes() {
    let id = TaskId::new();
    let mut h = TaskHandle::new(waiting("main"), id.clone());
    let update = h.progress(|p| {
        p.set(12);
        p.set_message("halfway");
    });
    let mut expected = waiting("main");
    expected.set(12);
    expected.set_message("halfway");
    assert_eq!(h.progress, expected);
    assert_eq!(update, Some(ProgressUpdate::Update { task_id: id, progress: expected }));
}

#[test]
fn progress_on_silent_handle_keeps_edit() {
    let mut h = TaskHandle::new_silent(waiting("main"), TaskId::new());
    let update = h.progress(|p| p.set_status(ProgressStatus::Error));
    assert_eq!(update, None);
    assert_eq!(h.progress.status, ProgressStatus::Error);
}

#[test]
fn run_marks_running() {
    let id = TaskId::new();
    let mut h = TaskHandle::new(waiting("main"), id.clone());
    let update = h.run();
    let expected = Progress { status: ProgressStatus::Running, ..waiting("main") };
    assert_eq!(h.progress, expected);
    assert_eq!(update, Some(ProgressUpdate::Update { task_id: id, progress: expected }));
}

#[test]
fn handle_updates_reach_the_manager() {
    let id = TaskId::new();
    let sub = TaskId::new();
    let mut m = ProgressManager::new();
    m.add_task(id.clone(), waiting("main"));
    let mut h = TaskHandle::new(waiting("main"), id.clone());
    let (mut child, update) = h.register("child".to_string(), sub.clone());
    m.apply(update.unwrap());
    let running = h.run().unwrap();
    m.apply(running);
    let report = m.apply(child.progress(|p| p.set(3)).unwrap());
    let mut child_progress = waiting("child");
    child_progress.set(3);
    assert_eq!(
        report,
        Some(TaskProgress::new(
            id,
            Progress { status: ProgressStatus::Running, ..waiting("main") },
            vec![child_progress],
        ))
    );
}
