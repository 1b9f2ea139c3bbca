# aqueduct

Progress bookkeeping and code generation for the aqueduct task runtime,
verified with Verus.

- `src/progress.rs`: task progress values, the progress manager (which
  tasks exist, their subtasks and parents, and the report sent for a task),
  its abstract state `ProgressState`, and the laws proved about it.
- `src/task.rs`: task ids and the state a task handle keeps (its progress,
  and the updates it hands to the progress manager).
- `src/codegen.rs`: the parts of an annotated function, parsed with `syn`,
  and the text of the functions that the `#[task]`, `#[blocking_task]` and
  `#[entry]` attributes generate from them.
- `app/`: the tokio runtime, the channel that carries reports, the task
  types and the attribute entry points over token streams.
