use aqueduct::codegen::{
    asyncify, make_entry, make_entry_from_source, make_runtime_method, make_task,
    make_task_from_source, make_tokio_return_type, FnItem,
    TaskError, TaskType,
};

fn item(is_async: bool, output: Option<&str>) -> FnItem {
    FnItem {
        visibility: "pub".to_string(),
        name: "work".to_string(),
        inputs: "x : u32".to_string(),
        output: output.map(|o| o.to_string()),
        block: "{ x + 1 }".to_string(),
        is_async,
    }
}

#[test]
fn runtime_methods() {
    assert_eq!(make_runtime_method(&TaskType::Normal), "spawn");
    assert_eq!(make_runtime_method(&TaskType::Blocking), "spawn_blocking");
}

#[test]
fn asyncify_by_task_type() {
    assert_eq!(asyncify(&TaskType::Normal), "async move");
    assert_eq!(asyncify(&TaskType::Blocking), "move ||");
}

#[test]
fn tokio_return_types() {
    assert_eq!(make_tokio_return_type(&None), "-> tokio::task::JoinHandle<()>");
    assert_eq!(
        make_tokio_return_type(&Some("u32".to_string())),
        "-> tokio::task::JoinHandle<u32>"
    );
}

#[test]
fn normal_task_text() {
    assert_eq!(
        make_task(&item(true, Some("u32")), TaskType::Normal),
        Ok("#[tracing::instrument] pub fn work (x : u32) -> tokio::task::JoinHandle<u32> \
            { aqueduct::runtime::AQUEDUCT_RUNTIME.spawn (async move { x + 1 }) }"
            .to_string())
    );
}

#[test]
fn blocking_task_text() {
    assert_eq!(
        make_task(&item(false, None), TaskType::Blocking),
        Ok("#[tracing::instrument] pub fn work (x : u32) -> tokio::task::JoinHandle<()> \
            { aqueduct::runtime::AQUEDUCT_RUNTIME.spawn_blocking (move || { x + 1 }) }"
            .to_string())
    );
}

#[test]
fn async_blocking_task_is_refused() {
    let r = make_task(&item(true, Some("u32")), TaskType::Blocking);
    assert_eq!(r, Err(TaskError::AsyncBlockingTask));
    assert_eq!(TaskError::AsyncBlockingTask.message(), "Blocking task can't be async!");
}

#[test]
fn entry_text() {
    assert_eq!(
        make_entry(&item(true, Some("u32"))),
        "#[tracing::instrument] pub fn work (x : u32) -> u32 \
         { aqueduct::runtime::AQUEDUCT_RUNTIME.block_on(async move { x + 1 }) }"
    );
    assert_eq!(
        make_entry(&item(false, None)),
        "#[tracing::instrument] pub fn work (x : u32)  \
         { aqueduct::runtime::AQUEDUCT_RUNTIME.block_on(async move { x + 1 }) }"
    );
}

#[test]
fn task_from_source_text() {
    assert_eq!(
        make_task_from_source("pub fn work(x: u32) -> u32 { x + 1 }", TaskType::Normal),
        Ok("#[tracing::instrument] pub fn work (x : u32) -> tokio::task::JoinHandle<u32> \
            { aqueduct::runtime::AQUEDUCT_RUNTIME.spawn (async move { x + 1 }) }"
            .to_string())
    );
    assert_eq!(
        make_task_from_source("fn idle() {}", TaskType::Blocking),
        Ok("#[tracing::instrument]  fn idle () -> tokio::task::JoinHandle<()> \
            { aqueduct::runtime::AQUEDUCT_RUNTIME.spawn_blocking (move || { }) }"
            .to_string())
    );
}

#[test]
fn task_from_source_refusals() {
    assert_eq!(
        make_task_from_source("async fn work() -> u32 { 1 }", TaskType::Blocking),
        Err(TaskError::AsyncBlockingTask)
    );
    assert!(make_task_from_source("async fn work() -> u32 { 1 }", TaskType::Normal).is_ok());
    assert_eq!(
        make_task_from_source("struct NotAFn;", TaskType::Normal),
        Err(TaskError::NotAFunction)
    );
    assert_eq!(TaskError::NotAFunction.message(), "expected a function");
}

#[test]
fn entry_from_source_text() {
    assert_eq!(
        make_entry_from_source("pub fn main() -> u32 { 7 }"),
        Ok("#[tracing::instrument] pub fn main () -> u32 \
            { aqueduct::runtime::AQUEDUCT_RUNTIME.block_on(async move { 7 }) }"
            .to_string())
    );
    assert_eq!(make_entry_from_source("let x = 1;"), Err(TaskError::NotAFunction));
}
