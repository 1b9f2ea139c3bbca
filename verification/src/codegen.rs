use vstd::prelude::*;

verus! {

/// Which runtime call a task attribute wraps the function body in.
#[derive(Debug, Clone, Copy, PartialEq, Eq, Structural)]
pub enum TaskType {
    /// `#[task]`: the body runs as a future on the runtime.
    Normal,
    /// `#[blocking_task]`: the body runs on the runtime's blocking pool.
    Blocking,
}

/// Why a task attribute refuses a function.
#[derive(Debug, Clone, Copy, PartialEq, Eq, Structural)]
pub enum TaskError {
    /// A blocking task was declared `async`.
    AsyncBlockingTask,
    /// The annotated item is not a function.
    NotAFunction,
}

impl TaskError {
    /// The compile error shown to the user.
    pub fn message(&self) -> (m: String)
        ensures
            *self == TaskError::AsyncBlockingTask ==> m@ == "Blocking task can't be async!"@,
            *self == TaskError::NotAFunction ==> m@ == "expected a function"@,
    {
        match self {
            TaskError::AsyncBlockingTask => String::from_str("Blocking task can't be async!"),
            TaskError::NotAFunction => String::from_str("expected a function"),
        }
    }
}

/// The parts of an annotated function, each as source text.
#[derive(Debug, Clone, PartialEq, Eq)]
pub struct FnItem {
    /// The visibility, such as `pub`, or empty.
    pub visibility: String,
    /// The function's name.
    pub name: String,
    /// The parameter list, without its parentheses.
    pub inputs: String,
    /// The return type after `->`, or `None` where the function has none.
    pub output: Option<String>,
    /// The body, braces included.
    pub block: String,
    /// Whether the function is declared `async`.
    pub is_async: bool,
}

/// The parts of a function as text: visibility, name, parameters, return
/// type (`None` where there is none), body, and whether it is `async`.
pub type FnParts = (Seq<char>, Seq<char>, Seq<char>, Option<Seq<char>>, Seq<char>, bool);

/// The parts that `item` holds.
pub open spec fn item_parts(item: FnItem) -> FnParts {
    (
        item.visibility@,
        item.name@,
        item.inputs@,
        match item.output {
            Some(ty) => Some(ty@),
            None => None,
        },
        item.block@,
        item.is_async,
    )
}

/// Parses `src` as a function item and returns its parts as text.
///
/// Calls `syn::parse_str::<syn::ItemFn>` and prints each part with
/// `quote::ToTokens::to_token_stream` and `to_string`. Nothing is claimed of
/// the result: which sources `syn` accepts, and how `proc_macro2` spaces the
/// printed tokens, differ between running inside and outside a procedural
/// macro and between compiler releases. `syn`'s parser recurses on nested
/// expressions, and neither its source nor its documentation gives a depth
/// at which the stack runs out, so no such bound is stated either.
#[verifier::external_body]
fn parse_fn_item(src: &str) -> (r: Option<FnItem>)
{
    let ast = syn::parse_str::<syn::ItemFn>(src).ok()?;
    Some(FnItem {
        visibility: quote::ToTokens::to_token_stream(&ast.vis).to_string(),
        name: ast.sig.ident.to_string(),
        inputs: quote::ToTokens::to_token_stream(&ast.sig.inputs).to_string(),
        output: match &ast.sig.output {
            syn::ReturnType::Default => None,
            syn::ReturnType::Type(_, ty) => Some(quote::ToTokens::to_token_stream(ty).to_string()),
        },
        block: quote::ToTokens::to_token_stream(&ast.block).to_string(),
        is_async: ast.sig.asyncness.is_some(),
    })
}

/// The runtime method that runs a task of type `task_type`.
pub open spec fn runtime_method_text(task_type: TaskType) -> Seq<char> {
    match task_type {
        TaskType::Normal => "spawn"@,
        TaskType::Blocking => "spawn_blocking"@,
    }
}

/// What the body is wrapped in before it is handed to the runtime.
pub open spec fn asyncify_text(task_type: TaskType) -> Seq<char> {
    match task_type {
        TaskType::Normal => "async move"@,
        TaskType::Blocking => "move ||"@,
    }
}

/// The return type of the generated function: a join handle on the
/// function's own return type, `()` where it has none.
pub open spec fn tokio_return_type_text(output: Option<Seq<char>>) -> Seq<char> {
    match output {
        None => "-> tokio::task::JoinHandle<()>"@,
        Some(ty) => "-> tokio::task::JoinHandle<"@ + ty + ">"@,
    }
}

/// The text of the function that `#[task]` or `#[blocking_task]` puts in
/// place of the function with parts `f`: same visibility, name and
/// parameters, and a body that hands the original body to the global
/// runtime.
pub open spec fn task_text(f: FnParts, task_type: TaskType) -> Seq<char> {
    "#[tracing::instrument] "@ + f.0 + " fn "@ + f.1 + " ("@ + f.2 + ") "@
        + tokio_return_type_text(f.3) + " { aqueduct::runtime::AQUEDUCT_RUNTIME."@
        + runtime_method_text(task_type) + " ("@ + asyncify_text(task_type) + " "@ + f.4
        + ") }"@
}

/// The return type as written, with its arrow, or nothing.
pub open spec fn return_type_text(output: Option<Seq<char>>) -> Seq<char> {
    match output {
        None => Seq::empty(),
        Some(ty) => "-> "@ + ty,
    }
}

/// The text of the function that `#[entry]` puts in place of the function
/// with parts `f`: same signature, and a body that blocks on the original
/// body as a future on the global runtime.
pub open spec fn entry_text(f: FnParts) -> Seq<char> {
    "#[tracing::instrument] "@ + f.0 + " fn "@ + f.1 + " ("@ + f.2 + ") "@
        + return_type_text(f.3) + " { aqueduct::runtime::AQUEDUCT_RUNTIME.block_on(async move "@
        + f.4 + ") }"@
}

/// The runtime method that runs a task of type `task_type`.
pub fn make_runtime_method(task_type: &TaskType) -> (m: String)
    ensures
        m@ == runtime_method_text(*task_type),
{
    match task_type {
        TaskType::Normal => String::from_str("spawn"),
        TaskType::Blocking => String::from_str("spawn_blocking"),
    }
}

/// What the body is wrapped in: an `async move` block for a normal task,
/// a `move` closure for a blocking one.
pub fn asyncify(task_type: &TaskType) -> (a: String)
    ensures
        a@ == asyncify_text(*task_type),
{
    match task_type {
        TaskType::Normal => String::from_str("async move"),
        TaskType::Blocking => String::from_str("move ||"),
    }
}

/// The return type of the generated function.
pub fn make_tokio_return_type(output: &Option<String>) -> (t: String)
    ensures
        t@ == tokio_return_type_text(
            match output {
                Some(ty) => Some(ty@),
                None => None,
            },
        ),
{
    match output {
        None => String::from_str("-> tokio::task::JoinHandle<()>"),
        Some(ty) => {
            let mut t = String::from_str("-> tokio::task::JoinHandle<");
            t.append(ty.as_str());
            t.append(">");
            t
        },
    }
}

/// The function that `#[task]` (`Normal`) or `#[blocking_task]`
/// (`Blocking`) generates from `item`, as source text. A blocking task
/// that is declared `async` is refused.
pub fn make_task(item: &FnItem, task_type: TaskType) -> (r: Result<String, TaskError>)
    ensures
        r is Err <==> (task_type == TaskType::Blocking && item.is_async),
        r matches Err(e) ==> e == TaskError::AsyncBlockingTask,
        r matches Ok(text) ==> text@ == task_text(item_parts(*item), task_type),
{
    if task_type == TaskType::Blocking && item.is_async {
        return Err(TaskError::AsyncBlockingTask);
    }
    let return_type = make_tokio_return_type(&item.output);
    let method = make_runtime_method(&task_type);
    let asyncness = asyncify(&task_type);
    let mut text = String::from_str("#[tracing::instrument] ");
    text.append(item.visibility.as_str());
    text.append(" fn ");
    text.append(item.name.as_str());
    text.append(" (");
    text.append(item.inputs.as_str());
    text.append(") ");
    text.append(return_type.as_str());
    text.append(" { aqueduct::runtime::AQUEDUCT_RUNTIME.");
    text.append(method.as_str());
    text.append(" (");
    text.append(asyncness.as_str());
    text.append(" ");
    text.append(item.block.as_str());
    text.append(") }");
    Ok(text)
}

/// The function that `#[entry]` generates from `item`, as source text.
pub fn make_entry(item: &FnItem) -> (text: String)
    ensures
        text@ == entry_text(item_parts(*item)),
{
    let mut text = String::from_str("#[tracing::instrument] ");
    text.append(item.visibility.as_str());
    text.append(" fn ");
    text.append(item.name.as_str());
    text.append(" (");
    text.append(item.inputs.as_str());
    text.append(") ");
    match &item.output {
        None => {},
        Some(ty) => {
            text.append("-> ");
            text.append(ty.as_str());
        },
    }
    text.append(" { aqueduct::runtime::AQUEDUCT_RUNTIME.block_on(async move ");
    text.append(item.block.as_str());
    text.append(") }");
    text
}


/// What `#[task]` (`Normal`) or `#[blocking_task]` (`Blocking`) generates
/// once the annotated item has been parsed: `NotAFunction` where it is no
/// function, else what `make_task` gives for it.
pub fn make_task_from_parsed(parsed: Option<FnItem>, task_type: TaskType) -> (r: Result<
    String,
    TaskError,
>)
    ensures
        parsed is None ==> r == Err::<String, TaskError>(TaskError::NotAFunction),
        parsed matches Some(item) ==> {
            &&& (r is Err <==> (task_type == TaskType::Blocking && item.is_async))
            &&& (r matches Err(e) ==> e == TaskError::AsyncBlockingTask)
            &&& (r matches Ok(text) ==> text@ == task_text(item_parts(item), task_type))
        },
{
    match parsed {
        Some(item) => make_task(&item, task_type),
        None => Err(TaskError::NotAFunction),
    }
}

/// What `#[entry]` generates once the annotated item has been parsed:
/// `NotAFunction` where it is no function, else what `make_entry` gives for
/// it, whatever its signature.
pub fn make_entry_from_parsed(parsed: Option<FnItem>) -> (r: Result<String, TaskError>)
    ensures
        parsed is None ==> r == Err::<String, TaskError>(TaskError::NotAFunction),
        parsed matches Some(item) ==> r matches Ok(text) && text@ == entry_text(item_parts(item)),
{
    match parsed {
        Some(item) => Ok(make_entry(&item)),
        None => Err(TaskError::NotAFunction),
    }
}

/// The function that `#[task]` (`Normal`) or `#[blocking_task]`
/// (`Blocking`) generates from the source text of the annotated item, as
/// `make_task_from_parsed` generates it once `syn` has parsed the item.
/// Refused where `syn` finds no function, or where the function is a
/// blocking task declared `async`.
pub fn make_task_from_source(src: &str, task_type: TaskType) -> (r: Result<String, TaskError>)
    ensures
        r matches Ok(text) ==> exists|f: FnParts|
            #[trigger] task_text(f, task_type) == text@ && !(task_type == TaskType::Blocking
                && f.5),
        r matches Err(e) ==> e == TaskError::NotAFunction || (e == TaskError::AsyncBlockingTask
            && task_type == TaskType::Blocking),
{
    let parsed = parse_fn_item(src);
    let r = make_task_from_parsed(parsed, task_type);
    proof {
        if r is Ok {
            let f = item_parts(parsed->Some_0);
            assert(task_text(f, task_type) == r->Ok_0@);
        }
    }
    r
}

/// The function that `#[entry]` generates from the source text of the
/// annotated item, as `make_entry_from_parsed` generates it once `syn` has
/// parsed the item. Refused where `syn` finds no function.
pub fn make_entry_from_source(src: &str) -> (r: Result<String, TaskError>)
    ensures
        r matches Ok(text) ==> exists|f: FnParts| #[trigger] entry_text(f) == text@,
        r matches Err(e) ==> e == TaskError::NotAFunction,
{
    let parsed = parse_fn_item(src);
    let r = make_entry_from_parsed(parsed);
    proof {
        if r is Ok {
            let f = item_parts(parsed->Some_0);
            assert(entry_text(f) == r->Ok_0@);
        }
    }
    r
}

/// The head of a generated task, up to its body: the function's own
/// visibility, name and parameters, and a join handle on its own return
/// type (`()` where it has none).
pub open spec fn task_head(f: FnParts) -> Seq<char> {
    "#[tracing::instrument] "@ + f.0 + " fn "@ + f.1 + " ("@ + f.2 + ") "@ + match f.3 {
        Some(ty) => "-> tokio::task::JoinHandle<"@ + ty + ">"@,
        None => "-> tokio::task::JoinHandle<()>"@,
    }
}

/// A generated task keeps the function's signature, returning a join handle
/// on its own return type whatever the task type, and hands the function's
/// own body to the runtime: a normal task as an `async move` block to
/// `spawn`, a blocking one as a `move` closure to `spawn_blocking`.
pub proof fn lemma_task_text_wraps_function(f: FnParts)
    ensures
        task_text(f, TaskType::Normal) == task_head(f)
            + " { aqueduct::runtime::AQUEDUCT_RUNTIME.spawn (async move "@ + f.4 + ") }"@,
        task_text(f, TaskType::Blocking) == task_head(f)
            + " { aqueduct::runtime::AQUEDUCT_RUNTIME.spawn_blocking (move || "@ + f.4 + ") }"@,
        f.3 matches Some(ty) ==> forall|t: TaskType|
            (#[trigger] task_text(f, t)).subrange(
                task_head(f).len() - ty.len() - ">"@.len() - "-> tokio::task::JoinHandle<"@.len(),
                task_head(f).len() as int,
            ) == "-> tokio::task::JoinHandle<"@ + ty + ">"@,
{
    reveal_strlit("-> tokio::task::JoinHandle<");
    reveal_strlit(">");
    reveal_strlit(" { aqueduct::runtime::AQUEDUCT_RUNTIME.");
    reveal_strlit("spawn");
    reveal_strlit("spawn_blocking");
    reveal_strlit(" (");
    reveal_strlit("async move");
    reveal_strlit("move ||");
    reveal_strlit(" ");
    reveal_strlit(" { aqueduct::runtime::AQUEDUCT_RUNTIME.spawn (async move ");
    reveal_strlit(" { aqueduct::runtime::AQUEDUCT_RUNTIME.spawn_blocking (move || ");
    let prefix = "#[tracing::instrument] "@ + f.0 + " fn "@ + f.1 + " ("@ + f.2 + ") "@;
    assert(task_text(f, TaskType::Normal) =~= task_head(f)
        + " { aqueduct::runtime::AQUEDUCT_RUNTIME.spawn (async move "@ + f.4 + ") }"@);
    assert(task_text(f, TaskType::Blocking) =~= task_head(f)
        + " { aqueduct::runtime::AQUEDUCT_RUNTIME.spawn_blocking (move || "@ + f.4 + ") }"@);
    if f.3 is Some {
        let ty = f.3->Some_0;
        let ret = "-> tokio::task::JoinHandle<"@ + ty + ">"@;
        assert(task_head(f) =~= prefix + ret);
        assert forall|t: TaskType| (#[trigger] task_text(f, t)).subrange(
            task_head(f).len() - ty.len() - ">"@.len() - "-> tokio::task::JoinHandle<"@.len(),
            task_head(f).len() as int,
        ) == ret by {
            let rest = task_text(f, t).subrange(task_head(f).len() as int, task_text(f, t).len() as int);
            assert(task_text(f, t) =~= task_head(f) + rest);
            assert(task_text(f, t).subrange(prefix.len() as int, task_head(f).len() as int) =~= ret);
        }
    }
}

/// A generated entry keeps the function's whole signature, its return type
/// as written (nothing where it has none), and blocks on its body as an
/// `async move` block on the runtime.
pub proof fn lemma_entry_text_wraps_function(f: FnParts)
    ensures
        entry_text(f) == "#[tracing::instrument] "@ + f.0 + " fn "@ + f.1 + " ("@ + f.2 + ") "@
            + match f.3 {
            Some(ty) => "-> "@ + ty,
            None => Seq::empty(),
        } + " { aqueduct::runtime::AQUEDUCT_RUNTIME.block_on(async move "@ + f.4 + ") }"@,
{
}

} // verus!
