//! The handle: one script execution and its lifecycle.
//!
//! A handle owns exactly one of the states ready, paused, awaiting futures,
//! complete and consumed.  Every operation either leaves the handle as it
//! was and reports why, or hands the script to the engine and moves the
//! handle to the state that the engine's answer calls for.

use vstd::prelude::*;
use crate::convert::{encode, monty_object_to_json};
use crate::engine::{
    baseline_memory, clock_elapsed, clock_now, decode_unit, encode_unit, engine_compile,
    engine_resume, engine_resume_futures, engine_resume_lookup, engine_resume_pending, engine_run,
    engine_start, export_reply, import_exception, import_progress, import_value, live_memory,
    make_tracker, unit_read, whole_millis, PendingCall, Progress, RawStep, Reply,
};
use crate::error::{
    bridge_report, exception_json, make_bridge_report, monty_exception_to_json, ExceptionReport,
};
use crate::json::{members_view, Json, JsonModel};
use crate::replies::{error_reply, futures_refusal, read_replies, read_reply, reply_outcome};
use crate::report::{
    build_pending_meta, build_report, call_model, count_memory, count_ms, ids_text, ids_to_text,
    no_usage, report_text, usage_after, usage_grew, PendingMeta, PendingModel, Usage,
};
use crate::tags::{MontyProgressTag, MontyResultTag};
use crate::text::{name_texts, optional_text};
use crate::value::{EngineModel, EngineValue};

verus! {

/// The label of a script that was given none.
pub open spec fn default_script_name() -> Seq<char> {
    "<input>"@
}

/// The recursion depth allowed where none was set: the engine's default.
pub const DEFAULT_STACK_LIMIT: usize = 1000;

/// How many suspensions the bridge answers by itself within one step before
/// it hands the next one on.
pub const MAX_AUTO_ANSWERS: usize = 1000;

/// Resource ceilings of an execution; each is optional.
#[derive(Debug, Clone, Copy, PartialEq, Eq)]
pub struct Limits {
    /// The memory ceiling in bytes.
    pub max_memory: Option<usize>,
    /// The time ceiling in milliseconds.
    pub max_duration_ms: Option<u64>,
    /// The ceiling on the depth of the call stack.
    pub max_recursion_depth: Option<usize>,
}

/// Limits with no ceiling set.
pub open spec fn no_limits() -> Limits {
    Limits { max_memory: None, max_duration_ms: None, max_recursion_depth: None }
}

/// What the engine's tracker of an execution is made with.  The depth of
/// the call stack is always bounded.
#[derive(Debug, Clone, Copy, PartialEq, Eq)]
pub struct TrackerSettings {
    /// The memory ceiling in bytes, where one was set.
    pub max_memory: Option<usize>,
    /// The time ceiling in milliseconds, where one was set.
    pub max_duration_ms: Option<u64>,
    /// The ceiling on the depth of the call stack.
    pub max_recursion_depth: usize,
}

/// The settings of the tracker for the limits of a handle: the ceilings on
/// memory and time as they were set, and the ceiling on the depth of the
/// call stack that was set, or [`DEFAULT_STACK_LIMIT`] where none was.
pub open spec fn tracker_settings(limits: Option<Limits>) -> TrackerSettings {
    match limits {
        Some(l) => TrackerSettings {
            max_memory: l.max_memory,
            max_duration_ms: l.max_duration_ms,
            max_recursion_depth: match l.max_recursion_depth {
                Some(depth) => depth,
                None => DEFAULT_STACK_LIMIT,
            },
        },
        None => TrackerSettings {
            max_memory: None,
            max_duration_ms: None,
            max_recursion_depth: DEFAULT_STACK_LIMIT,
        },
    }
}

/// The state of a handle, without what only the engine can read.
pub enum StateModel {
    /// Compiled, not yet started.
    Ready,
    /// Suspended at a call of a host function.
    Paused(PendingModel),
    /// Suspended with host calls outstanding; holds their identifiers as
    /// the text of a JSON array.
    AwaitingFutures(Seq<char>),
    /// Ended, with the text of the result report.
    Complete { result_json: Seq<char>, is_error: bool },
    /// In the middle of a transition.
    Consumed,
}

/// The mathematical model of a [`MontyHandle`].
pub struct HandleModel {
    pub state: StateModel,
    pub limits: Option<Limits>,
    /// The names of the functions that the host serves.
    pub external_functions: Seq<Seq<char>>,
    /// What the execution has used so far.
    pub usage: Usage,
    pub print_output: Seq<char>,
}

/// The state of a handle.
enum HandleState {
    Ready(monty::MontyRun),
    Paused { snapshot: monty::FunctionCall, meta: PendingMeta },
    Futures { futures: monty::ResolveFutures, call_ids_json: String },
    Complete { result_json: String, is_error: bool },
    Consumed,
}

/// One script execution.
pub struct MontyHandle {
    state: HandleState,
    limits: Option<Limits>,
    external_functions: Vec<String>,
    usage: Usage,
    print_output: String,
}

impl HandleState {
    spec fn model(&self) -> StateModel {
        match self {
            HandleState::Ready(_) => StateModel::Ready,
            HandleState::Paused { meta, .. } => StateModel::Paused(meta@),
            HandleState::Futures { call_ids_json, .. } => StateModel::AwaitingFutures(call_ids_json@),
            HandleState::Complete { result_json, is_error } => StateModel::Complete {
                result_json: result_json@,
                is_error: *is_error,
            },
            HandleState::Consumed => StateModel::Consumed,
        }
    }
}

impl View for MontyHandle {
    type V = HandleModel;

    closed spec fn view(&self) -> HandleModel {
        HandleModel {
            state: self.state.model(),
            limits: self.limits,
            external_functions: name_texts(self.external_functions@),
            usage: self.usage,
            print_output: self.print_output@,
        }
    }
}

/// The state of a handle that completed with a value.
pub open spec fn value_state(value: EngineModel, usage: Usage, print_output: Seq<char>) -> StateModel {
    StateModel::Complete {
        result_json: report_text(encode(value), None, usage, print_output),
        is_error: false,
    }
}

/// The state of a handle that completed with an error.
pub open spec fn error_state(error: JsonModel, usage: Usage, print_output: Seq<char>) -> StateModel {
    StateModel::Complete {
        result_json: report_text(JsonModel::Null, Some(error), usage, print_output),
        is_error: true,
    }
}

/// What is said of a suspension that the bridge does not serve.
pub open spec fn unsupported_message(progress: Progress) -> Seq<char> {
    match progress {
        Progress::Lookup { .. } => "unsupported progress type: NameLookup"@,
        _ => "unsupported progress type: OsCall"@,
    }
}

/// Whether the bridge serves the suspension.
pub open spec fn supported(progress: Progress) -> bool {
    !(progress is Lookup || progress is OsCall)
}

/// The state that a step's progress calls for.
pub open spec fn progress_state(progress: Progress, usage: Usage, print_output: Seq<char>) -> StateModel {
    match progress {
        Progress::Complete(value) => value_state(value@, usage, print_output),
        Progress::Call(call) => StateModel::Paused(call_model(call)),
        Progress::Futures { pending, .. } => StateModel::AwaitingFutures(ids_text(pending@)),
        _ => error_state(exception_json(bridge_report(unsupported_message(progress))), usage, print_output),
    }
}

/// The tag that a step's progress calls for.
pub open spec fn progress_tag(progress: Progress) -> MontyProgressTag {
    match progress {
        Progress::Complete(_) => MontyProgressTag::Complete,
        Progress::Call(_) => MontyProgressTag::Pending,
        Progress::Futures { .. } => MontyProgressTag::ResolveFutures,
        _ => MontyProgressTag::Error,
    }
}

/// The message that a step's progress calls for.
pub open spec fn progress_message(progress: Progress) -> Option<Seq<char>> {
    if supported(progress) {
        None
    } else {
        Some(unsupported_message(progress))
    }
}

/// The model of a handle that was just made for the given host functions.
pub open spec fn initial_model(external_functions: Seq<Seq<char>>) -> HandleModel {
    HandleModel {
        state: StateModel::Ready,
        limits: None,
        external_functions,
        usage: no_usage(),
        print_output: Seq::empty(),
    }
}

/// The label under which a script is compiled.
pub open spec fn script_label(script_name: Option<String>) -> Seq<char> {
    match script_name {
        Some(s) => s@,
        None => default_script_name(),
    }
}

/// What holds of a handle after the engine was handed a step, whatever the
/// engine answered: limits and host functions are as before; no counter of
/// the usage is lower than before; what was printed has grown at its end;
/// the handle is paused, awaiting futures or complete, and the tag says
/// which; a message comes exactly with an error; and the report of a
/// completed handle is an envelope over the usage and all that was printed.
pub open spec fn stepped(
    pre: HandleModel,
    post: HandleModel,
    tag: MontyProgressTag,
    message: Option<Seq<char>>,
) -> bool {
    &&& post.limits == pre.limits
    &&& post.external_functions == pre.external_functions
    &&& usage_grew(pre.usage, post.usage)
    &&& pre.print_output.is_prefix_of(post.print_output)
    &&& match post.state {
        StateModel::Paused(_) => tag == MontyProgressTag::Pending && message is None,
        StateModel::AwaitingFutures(_) => tag == MontyProgressTag::ResolveFutures && message is None,
        StateModel::Complete { result_json, is_error } => {
            &&& is_error ==> tag == MontyProgressTag::Error && message is Some
            &&& !is_error ==> tag == MontyProgressTag::Complete && message is None
            &&& exists|value: JsonModel, error: Option<JsonModel>|
                (error is Some <==> is_error) && #[trigger] report_text(
                    value,
                    error,
                    post.usage,
                    post.print_output,
                ) == result_json
        },
        _ => false,
    }
}

/// What holds of a handle after the engine ran its script to the end,
/// whatever the engine answered: limits and host functions are as before;
/// no counter of the usage is lower than before; what was printed has grown
/// at its end; the handle is complete; the text returned is its report, an
/// envelope over the usage and all that was printed; and the tag and the
/// message tell an error from a value.
pub open spec fn ran(
    pre: HandleModel,
    post: HandleModel,
    tag: MontyResultTag,
    result_json: Seq<char>,
    message: Option<Seq<char>>,
) -> bool {
    &&& post.limits == pre.limits
    &&& post.external_functions == pre.external_functions
    &&& usage_grew(pre.usage, post.usage)
    &&& pre.print_output.is_prefix_of(post.print_output)
    &&& post.state matches StateModel::Complete { result_json: report, is_error }
    &&& report == result_json
    &&& is_error ==> tag == MontyResultTag::Error && message is Some
    &&& !is_error ==> tag == MontyResultTag::Success && message is None
    &&& exists|value: JsonModel, error: Option<JsonModel>|
        (error is Some <==> is_error) && #[trigger] report_text(
            value,
            error,
            post.usage,
            post.print_output,
        ) == result_json
}

/// The limits of a handle, with no ceiling where none were set.
pub open spec fn limits_or_none(limits: Option<Limits>) -> Limits {
    match limits {
        Some(l) => l,
        None => no_limits(),
    }
}

/// The model of the outcome of a run.
pub open spec fn outcome_state(
    outcome: Result<EngineValue, ExceptionReport>,
    usage: Usage,
    print_output: Seq<char>,
) -> StateModel {
    match outcome {
        Ok(value) => value_state(value@, usage, print_output),
        Err(report) => error_state(exception_json(report@), usage, print_output),
    }
}

/// What is said to an operation that finds the handle in a state it is
/// not for: that the handle is not in the state asked for, or, of a handle
/// left in the middle of a transition, that there is an internal error.
pub open spec fn wrong_state(state: StateModel, expected: Seq<char>) -> Seq<char> {
    if state is Consumed {
        "internal error"@
    } else {
        expected
    }
}

/// What holds of a handle after an operation that it refused: the handle
/// is as before, and the tag and the message say why.
pub open spec fn refused(
    pre: HandleModel,
    post: HandleModel,
    tag: MontyProgressTag,
    message: Option<Seq<char>>,
    reason: Seq<char>,
) -> bool {
    post == pre && tag == MontyProgressTag::Error && message == Some(reason)
}

/// What running a handle to the end gives: a ready handle is run, as
/// [`ran`] says; any other is refused and left as it is.
pub open spec fn run_outcome(
    pre: HandleModel,
    post: HandleModel,
    tag: MontyResultTag,
    result_json: Seq<char>,
    message: Option<Seq<char>>,
) -> bool {
    if pre.state is Ready {
        ran(pre, post, tag, result_json, message)
    } else {
        post == pre && tag == MontyResultTag::Error && result_json == Seq::<char>::empty() && message == Some(
            wrong_state(pre.state, "handle not in Ready state"@),
        )
    }
}

/// What starting a handle gives: a ready handle is stepped; any other is
/// refused.
pub open spec fn start_outcome(
    pre: HandleModel,
    post: HandleModel,
    tag: MontyProgressTag,
    message: Option<Seq<char>>,
) -> bool {
    if pre.state is Ready {
        stepped(pre, post, tag, message)
    } else {
        refused(pre, post, tag, message, wrong_state(pre.state, "handle not in Ready state"@))
    }
}

/// What answering the pending call of a handle gives: a paused handle is
/// stepped; any other is refused.
pub open spec fn answer_outcome(
    pre: HandleModel,
    post: HandleModel,
    tag: MontyProgressTag,
    message: Option<Seq<char>>,
) -> bool {
    if pre.state is Paused {
        stepped(pre, post, tag, message)
    } else {
        refused(pre, post, tag, message, wrong_state(pre.state, "handle not in Paused state"@))
    }
}

/// What answering the pending call of a handle with a value gives: a text
/// that cannot be read is refused with the reader's message; else the call
/// is answered.
pub open spec fn resume_outcome(
    value_json: Seq<char>,
    pre: HandleModel,
    post: HandleModel,
    tag: MontyProgressTag,
    message: Option<Seq<char>>,
) -> bool {
    match reply_outcome(value_json) {
        Err(reason) => refused(pre, post, tag, message, reason),
        Ok(_) => answer_outcome(pre, post, tag, message),
    }
}

/// What resolving the outstanding calls of a handle gives: answers that
/// cannot be read are refused; else a handle that awaits futures is stepped,
/// and any other is refused.
pub open spec fn futures_outcome(
    results_json: Seq<char>,
    errors_json: Seq<char>,
    pre: HandleModel,
    post: HandleModel,
    tag: MontyProgressTag,
    message: Option<Seq<char>>,
) -> bool {
    match futures_refusal(results_json, errors_json) {
        Some(reason) => refused(pre, post, tag, message, reason),
        None => if pre.state is AwaitingFutures {
            stepped(pre, post, tag, message)
        } else {
            refused(pre, post, tag, message, wrong_state(pre.state, "handle not in Futures state"@))
        },
    }
}

/// A handle after a limit was set: with the new limits while it is ready,
/// and as before once execution has begun.
pub open spec fn with_limits(pre: HandleModel, limits: Limits) -> HandleModel {
    if pre.state is Ready {
        HandleModel { limits: Some(limits), ..pre }
    } else {
        pre
    }
}

/// The names of the host's functions that bytes hold, where the bytes are
/// a snapshot: where they read, to their end, as a compiled script and such
/// names.
pub open spec fn snapshot_functions(bytes: Seq<u8>) -> Option<Seq<Seq<char>>> {
    match unit_read(bytes) {
        Ok(unit) => if unit.1 == 0 {
            Some(unit.0)
        } else {
            None
        },
        Err(_) => None,
    }
}

/// What a snapshot of a handle gives.  For a ready handle: bytes that are a
/// snapshot with the names of the handle's host functions, or the
/// serializer's error.  For any other: a refusal.
pub open spec fn snapshot_outcome(pre: HandleModel, r: Result<Vec<u8>, String>) -> bool {
    if pre.state is Ready {
        match r {
            Ok(bytes) => snapshot_functions(bytes@) == Some(pre.external_functions),
            Err(e) => "snapshot failed: "@.is_prefix_of(e@),
        }
    } else {
        r matches Err(e) && e@ == "can only snapshot in Ready state"@
    }
}

/// What is said of bytes that hold more than a snapshot.
pub open spec fn trailing_bytes_message() -> Seq<char> {
    "restore failed: bytes left over after the snapshot"@
}

/// What restoring a handle gives: where the bytes are a snapshot, a handle
/// that is ready and as new, for the host functions that the bytes name;
/// where they hold more than a snapshot, a refusal; where they do not read
/// as one, the deserializer's error behind the words that the restore
/// failed.
pub open spec fn restore_outcome(bytes: Seq<u8>, r: Result<MontyHandle, String>) -> bool {
    match snapshot_functions(bytes) {
        Some(functions) => r matches Ok(h) && h@ == initial_model(functions),
        None => r matches Err(e) && e@ == match unit_read(bytes) {
            Ok(_) => trailing_bytes_message(),
            Err(cause) => "restore failed: "@ + cause,
        },
    }
}

/// A snapshot restores: bytes that a snapshot of a handle gave are
/// restored to a handle that is ready and as new, for the host functions of
/// the handle that was snapshotted.
pub proof fn snapshot_restores(pre: HandleModel, bytes: Vec<u8>, restored: Result<MontyHandle, String>)
    requires
        snapshot_outcome(pre, Ok(bytes)),
        restore_outcome(bytes@, restored),
    ensures
        restored matches Ok(h) && h@ == initial_model(pre.external_functions),
{
}

/// What the bridge does with the progress of a step.
pub enum Move {
    /// It answers a lookup itself: with the host's function of the name, or,
    /// where no name is given, with the answer that the name is undefined.
    AnswerLookup { lookup: monty::NameLookup, function: Option<String> },
    /// It answers a call itself: there is no function of the name.
    RefuseCall { snapshot: monty::FunctionCall, function_name: String },
    /// It settles the state of the handle by the progress.
    Settle(Progress),
}

/// The move that the progress of a step calls for, given the names of the
/// functions that the host serves and the number of answers that the bridge
/// may still give by itself within the step.  With answers left, a lookup
/// is answered with the function where the host serves the name and as
/// undefined where it does not, and a call that is no method call, of a
/// function that the host does not serve, is answered as not found.  All
/// else settles the state: with no answer left, a lookup ends the
/// execution as a suspension that the bridge does not serve, and a call
/// goes to the host.
pub open spec fn next_move_of(progress: Progress, declared: Seq<Seq<char>>, budget: usize) -> Move {
    match progress {
        Progress::Lookup { lookup, name } => if budget > 0 {
            Move::AnswerLookup {
                lookup,
                function: if declared.contains(name@) {
                    Some(name)
                } else {
                    None
                },
            }
        } else {
            Move::Settle(progress)
        },
        Progress::Call(call) => if budget > 0 && !call.method_call && !declared.contains(call.function_name@) {
            Move::RefuseCall { snapshot: call.snapshot, function_name: call.function_name }
        } else {
            Move::Settle(progress)
        },
        _ => Move::Settle(progress),
    }
}

/// Tells whether a name is among the names.
pub fn declares(names: &Vec<String>, name: &String) -> (r: bool)
    ensures
        r == name_texts(names@).contains(name@),
{
    let mut i: usize = 0;
    while i < names.len()
        invariant
            i <= names.len(),
            forall|k: int| 0 <= k < i ==> (#[trigger] names@[k])@ != name@,
        decreases names.len() - i,
    {
        if names[i] == *name {
            assert(name_texts(names@)[i as int] == name@);
            return true;
        }
        i += 1;
    }
    false
}

/// Decides what the bridge does with the progress of a step.
pub fn next_move(progress: Progress, declared: &Vec<String>, budget: usize) -> (m: Move)
    ensures
        m == next_move_of(progress, name_texts(declared@), budget),
{
    match progress {
        Progress::Lookup { lookup, name } => {
            if budget > 0 {
                let function = if declares(declared, &name) {
                    Some(name)
                } else {
                    None
                };
                Move::AnswerLookup { lookup, function }
            } else {
                Move::Settle(Progress::Lookup { lookup, name })
            }
        },
        Progress::Call(call) => {
            if budget > 0 && !call.method_call && !declares(declared, &call.function_name) {
                let PendingCall { snapshot, function_name, .. } = call;
                Move::RefuseCall { snapshot, function_name }
            } else {
                Move::Settle(Progress::Call(call))
            }
        },
        other => Move::Settle(other),
    }
}

/// A text stays a prefix of what it is a prefix of when that grows at its end.
proof fn lemma_prefix_extends(a: Seq<char>, b: Seq<char>, c: Seq<char>)
    requires
        a.is_prefix_of(b),
    ensures
        a.is_prefix_of(b + c),
{
    assert((b + c).subrange(0, a.len() as int) =~= b.subrange(0, a.len() as int));
}

/// A handle that was completed from what a run gave, and of which nothing
/// else has changed since the run's usage and output were added, is as
/// [`ran`] asks.
proof fn lemma_ran(
    pre: HandleModel,
    mid: HandleModel,
    post: HandleModel,
    tag: MontyResultTag,
    result_json: Seq<char>,
    message: Option<Seq<char>>,
    value: JsonModel,
    error: Option<JsonModel>,
)
    requires
        mid.limits == pre.limits,
        mid.external_functions == pre.external_functions,
        usage_grew(pre.usage, mid.usage),
        pre.print_output.is_prefix_of(mid.print_output),
        post == (HandleModel { state: post.state, ..mid }),
        post.state matches StateModel::Complete { result_json: report, is_error },
        post.state->result_json == result_json,
        post.state->is_error ==> tag == MontyResultTag::Error && message is Some,
        !post.state->is_error ==> tag == MontyResultTag::Success && message is None,
        error is Some <==> post.state->is_error,
        report_text(value, error, mid.usage, mid.print_output) == result_json,
    ensures
        ran(pre, post, tag, result_json, message),
{
    assert(report_text(value, error, post.usage, post.print_output) == result_json);
}

/// A step that follows on growth of the usage alone is a step from before
/// the growth.
proof fn lemma_stepped_after(
    pre: HandleModel,
    mid: HandleModel,
    post: HandleModel,
    tag: MontyProgressTag,
    message: Option<Seq<char>>,
)
    requires
        mid.limits == pre.limits,
        mid.external_functions == pre.external_functions,
        mid.print_output == pre.print_output,
        usage_grew(pre.usage, mid.usage),
        stepped(mid, post, tag, message),
    ensures
        stepped(pre, post, tag, message),
{
}

/// A handle whose state was set from what a step gave, and of which nothing
/// else has changed since the step's output was added, is as [`stepped`]
/// asks.
proof fn lemma_stepped(
    pre: HandleModel,
    mid: HandleModel,
    post: HandleModel,
    tag: MontyProgressTag,
    message: Option<Seq<char>>,
    value: JsonModel,
    error: Option<JsonModel>,
)
    requires
        mid.limits == pre.limits,
        mid.external_functions == pre.external_functions,
        usage_grew(pre.usage, mid.usage),
        pre.print_output.is_prefix_of(mid.print_output),
        post == (HandleModel { state: post.state, ..mid }),
        match post.state {
            StateModel::Paused(_) => tag == MontyProgressTag::Pending && message is None,
            StateModel::AwaitingFutures(_) => tag == MontyProgressTag::ResolveFutures && message is None,
            StateModel::Complete { result_json, is_error } => {
                &&& is_error ==> tag == MontyProgressTag::Error && message is Some
                &&& !is_error ==> tag == MontyProgressTag::Complete && message is None
                &&& error is Some <==> is_error
                &&& report_text(value, error, mid.usage, mid.print_output) == result_json
            },
            _ => false,
        },
    ensures
        stepped(pre, post, tag, message),
{
    if post.state is Complete {
        assert(report_text(value, error, post.usage, post.print_output) == post.state->result_json);
    }
}

impl MontyHandle {
    /// Makes a handle that is ready to run a compiled script, for the host
    /// functions of the given names.
    pub fn ready(compiled: monty::MontyRun, external_functions: Vec<String>) -> (h: MontyHandle)
        ensures
            h@ == initial_model(name_texts(external_functions@)),
    {
        MontyHandle {
            state: HandleState::Ready(compiled),
            limits: None,
            external_functions,
            usage: Usage { memory_bytes_used: 0, time_elapsed_ms: 0, stack_depth_used: 0 },
            print_output: String::new(),
        }
    }

    /// The label under which a script is compiled: its name, or `<input>`
    /// where it has none.
    pub fn label(script_name: Option<String>) -> (name: String)
        ensures
            name@ == script_label(script_name),
    {
        match script_name {
            Some(s) => s,
            None => "<input>".to_owned(),
        }
    }

    /// What comes of an attempt to compile a script: of a compiled script a
    /// handle that is ready to run it, for the host functions of the given
    /// names; of a report the report.
    pub fn compiled(
        outcome: Result<monty::MontyRun, ExceptionReport>,
        external_functions: Vec<String>,
    ) -> (r: Result<MontyHandle, ExceptionReport>)
        ensures
            match outcome {
                Ok(_) => r matches Ok(h) && h@ == initial_model(name_texts(external_functions@)),
                Err(report) => r == Err::<MontyHandle, ExceptionReport>(report),
            },
    {
        match outcome {
            Ok(script) => Ok(MontyHandle::ready(script, external_functions)),
            Err(report) => Err(report),
        }
    }

    /// Compiles a script into a handle that is ready to run, under the label
    /// that [`MontyHandle::label`] gives.  Whether the script compiles is the
    /// engine's, and no function of the code and the label alone; what comes
    /// of the engine's answer is what [`MontyHandle::compiled`] says: a
    /// handle that comes back is new, for the host functions of the given
    /// names, and an error is the engine's report.
    pub fn new(code: String, external_functions: Vec<String>, script_name: Option<String>) -> (r: Result<
        MontyHandle,
        ExceptionReport,
    >)
        ensures
            r matches Ok(h) ==> h@ == initial_model(name_texts(external_functions@)),
    {
        let name = MontyHandle::label(script_name);
        let outcome = match engine_compile(code, name.as_str()) {
            Ok(script) => Ok(script),
            Err(exc) => Err(import_exception(&exc)),
        };
        MontyHandle::compiled(outcome, external_functions)
    }

    /// The name of the pending function; absent unless the handle is paused.
    pub fn pending_fn_name(&self) -> (r: Option<&str>)
        ensures
            match r {
                Some(s) => self@.state matches StateModel::Paused(p) && p.fn_name == s@,
                None => !(self@.state is Paused),
            },
    {
        match &self.state {
            HandleState::Paused { meta, .. } => Some(meta.fn_name.as_str()),
            _ => None,
        }
    }

    /// The positional arguments of the pending call as the text of a JSON
    /// array; absent unless the handle is paused.
    pub fn pending_fn_args_json(&self) -> (r: Option<&str>)
        ensures
            match r {
                Some(s) => self@.state matches StateModel::Paused(p) && p.args_json == s@,
                None => !(self@.state is Paused),
            },
    {
        match &self.state {
            HandleState::Paused { meta, .. } => Some(meta.args_json.as_str()),
            _ => None,
        }
    }

    /// The keyword arguments of the pending call as the text of a JSON
    /// object; absent unless the handle is paused.
    pub fn pending_fn_kwargs_json(&self) -> (r: Option<&str>)
        ensures
            match r {
                Some(s) => self@.state matches StateModel::Paused(p) && p.kwargs_json == s@,
                None => !(self@.state is Paused),
            },
    {
        match &self.state {
            HandleState::Paused { meta, .. } => Some(meta.kwargs_json.as_str()),
            _ => None,
        }
    }

    /// The identifier of the pending call; absent unless the handle is paused.
    pub fn pending_call_id(&self) -> (r: Option<u32>)
        ensures
            match r {
                Some(id) => self@.state matches StateModel::Paused(p) && p.call_id == id,
                None => !(self@.state is Paused),
            },
    {
        match &self.state {
            HandleState::Paused { meta, .. } => Some(meta.call_id),
            _ => None,
        }
    }

    /// Whether the pending call is a method call; absent unless the handle
    /// is paused.
    pub fn pending_method_call(&self) -> (r: Option<bool>)
        ensures
            match r {
                Some(b) => self@.state matches StateModel::Paused(p) && p.method_call == b,
                None => !(self@.state is Paused),
            },
    {
        match &self.state {
            HandleState::Paused { meta, .. } => Some(meta.method_call),
            _ => None,
        }
    }

    /// The identifiers of the outstanding calls as the text of a JSON array;
    /// absent unless the handle awaits futures.
    pub fn pending_future_call_ids(&self) -> (r: Option<&str>)
        ensures
            match r {
                Some(s) => self@.state matches StateModel::AwaitingFutures(ids) && ids == s@,
                None => !(self@.state is AwaitingFutures),
            },
    {
        match &self.state {
            HandleState::Futures { call_ids_json, .. } => Some(call_ids_json.as_str()),
            _ => None,
        }
    }

    /// The text of the result report; absent unless the handle is complete.
    pub fn complete_result_json(&self) -> (r: Option<&str>)
        ensures
            match r {
                Some(s) => self@.state matches StateModel::Complete { result_json, .. } && result_json == s@,
                None => !(self@.state is Complete),
            },
    {
        match &self.state {
            HandleState::Complete { result_json, .. } => Some(result_json.as_str()),
            _ => None,
        }
    }

    /// Whether the result is an error; absent unless the handle is complete.
    pub fn complete_is_error(&self) -> (r: Option<bool>)
        ensures
            match r {
                Some(b) => self@.state matches StateModel::Complete { is_error, .. } && is_error == b,
                None => !(self@.state is Complete),
            },
    {
        match &self.state {
            HandleState::Complete { is_error, .. } => Some(*is_error),
            _ => None,
        }
    }

    /// Sets the memory ceiling in bytes.  Has effect only while the handle is
    /// ready: once execution has begun the limits stay as they are.
    pub fn set_memory_limit(&mut self, bytes: usize)
        ensures
            final(self)@ == with_limits(
                old(self)@,
                Limits { max_memory: Some(bytes), ..limits_or_none(old(self)@.limits) },
            ),
    {
        if self.is_ready() {
            let mut limits = self.current_limits();
            limits.max_memory = Some(bytes);
            self.limits = Some(limits);
        }
    }

    /// Sets the time ceiling in milliseconds.  Has effect only while the
    /// handle is ready.
    pub fn set_time_limit_ms(&mut self, ms: u64)
        ensures
            final(self)@ == with_limits(
                old(self)@,
                Limits { max_duration_ms: Some(ms), ..limits_or_none(old(self)@.limits) },
            ),
    {
        if self.is_ready() {
            let mut limits = self.current_limits();
            limits.max_duration_ms = Some(ms);
            self.limits = Some(limits);
        }
    }

    /// Sets the ceiling on the depth of the call stack.  Has effect only
    /// while the handle is ready.  The depth is handed to the engine as it
    /// is, and the engine counts on it to keep a script within the stack of
    /// the machine: under a ceiling far above [`DEFAULT_STACK_LIMIT`] a
    /// script that recurses deeply can end the process.
    pub fn set_stack_limit(&mut self, depth: usize)
        ensures
            final(self)@ == with_limits(
                old(self)@,
                Limits { max_recursion_depth: Some(depth), ..limits_or_none(old(self)@.limits) },
            ),
    {
        if self.is_ready() {
            let mut limits = self.current_limits();
            limits.max_recursion_depth = Some(depth);
            self.limits = Some(limits);
        }
    }

    /// The message for an operation that the state of the handle is not for.
    fn wrong_state(&self, expected: &str) -> (message: String)
        ensures
            message@ == wrong_state(self@.state, expected@),
    {
        match &self.state {
            HandleState::Consumed => "internal error".to_owned(),
            _ => expected.to_owned(),
        }
    }

    /// Tells whether the handle is ready.
    fn is_ready(&self) -> (r: bool)
        ensures
            r == (self@.state is Ready),
    {
        match &self.state {
            HandleState::Ready(_) => true,
            _ => false,
        }
    }

    /// The limits set so far.
    fn current_limits(&self) -> (l: Limits)
        ensures
            l == limits_or_none(self@.limits),
    {
        match self.limits {
            Some(l) => l,
            None => Limits { max_memory: None, max_duration_ms: None, max_recursion_depth: None },
        }
    }

    /// The settings of the engine's tracker for the limits set so far.
    fn tracker(&self) -> (settings: TrackerSettings)
        ensures
            settings == tracker_settings(self@.limits),
    {
        let limits = self.current_limits();
        let depth = match limits.max_recursion_depth {
            Some(d) => d,
            None => DEFAULT_STACK_LIMIT,
        };
        TrackerSettings {
            max_memory: limits.max_memory,
            max_duration_ms: limits.max_duration_ms,
            max_recursion_depth: depth,
        }
    }

    /// What comes of an attempt to write a snapshot: the bytes that were
    /// written, or the serializer's error behind the words that a snapshot
    /// failed.
    pub fn written(encoded: Result<Vec<u8>, String>) -> (r: Result<Vec<u8>, String>)
        ensures
            match encoded {
                Ok(bytes) => r == Ok::<Vec<u8>, String>(bytes),
                Err(cause) => r matches Err(e) && e@ == "snapshot failed: "@ + cause@,
            },
    {
        match encoded {
            Ok(bytes) => Ok(bytes),
            Err(cause) => {
                let mut message = "snapshot failed: ".to_owned();
                message.append(cause.as_str());
                Err(message)
            },
        }
    }

    /// Serializes the compiled script of a ready handle, with the names of
    /// the host's functions.  Whether the serializer succeeds is its own;
    /// what comes of its answer is what [`MontyHandle::written`] says.
    /// Bytes that come back are a snapshot with the names of the handle's
    /// host functions, from which [`MontyHandle::restore`] makes a handle as
    /// new.  Any other state is refused.
    pub fn snapshot(&self) -> (r: Result<Vec<u8>, String>)
        ensures
            snapshot_outcome(self@, r),
    {
        match &self.state {
            HandleState::Ready(compiled) => {
                let r = MontyHandle::written(encode_unit(compiled, &self.external_functions));
                proof {
                    if r is Err {
                        assert(r->Err_0@.subrange(0, "snapshot failed: "@.len() as int) =~= "snapshot failed: "@);
                    }
                }
                r
            },
            _ => Err("can only snapshot in Ready state".to_owned()),
        }
    }

    /// Makes a ready handle from the bytes of a snapshot.  Bytes that do
    /// not read as a snapshot, or that hold more than one, are refused.  The
    /// bytes must be those of a snapshot: the reader checks their shape, not
    /// the script they hold.
    pub fn restore(bytes: &[u8]) -> (r: Result<MontyHandle, String>)
        ensures
            restore_outcome(bytes@, r),
    {
        match decode_unit(bytes) {
            Ok(unit) => {
                let (compiled, external_functions, rest) = unit;
                if rest == 0 {
                    Ok(MontyHandle::ready(compiled, external_functions))
                } else {
                    Err("restore failed: bytes left over after the snapshot".to_owned())
                }
            },
            Err(cause) => {
                let mut message = "restore failed: ".to_owned();
                message.append(cause.as_str());
                Err(message)
            },
        }
    }

    /// Completes the handle with the report of a raised exception.
    pub fn handle_exception(&mut self, exc: ExceptionReport) -> (r: (MontyProgressTag, Option<String>))
        ensures
            final(self)@ == (HandleModel {
                state: error_state(exception_json(exc@), old(self)@.usage, old(self)@.print_output),
                ..old(self)@
            }),
            r.0 == MontyProgressTag::Error,
            optional_text(r.1) == Some(exc@.summary),
    {
        let err_json = monty_exception_to_json(&exc);
        let result_json = build_report(
            Json::Null,
            Some(err_json),
            &self.usage,
            self.print_output.as_str(),
        );
        self.state = HandleState::Complete { result_json, is_error: true };
        (MontyProgressTag::Error, Some(exc.summary))
    }

    /// Moves the handle to the state that the progress of a step calls for:
    /// complete with the value, paused at the call, awaiting the futures, or
    /// complete with an error where the bridge does not serve the suspension.
    pub fn process_progress(&mut self, progress: Progress) -> (r: (MontyProgressTag, Option<String>))
        ensures
            final(self)@ == (HandleModel {
                state: progress_state(progress, old(self)@.usage, old(self)@.print_output),
                ..old(self)@
            }),
            r.0 == progress_tag(progress),
            optional_text(r.1) == progress_message(progress),
    {
        match progress {
            Progress::Complete(value) => {
                let val = monty_object_to_json(&value);
                let result_json = build_report(val, None, &self.usage, self.print_output.as_str());
                self.state = HandleState::Complete { result_json, is_error: false };
                (MontyProgressTag::Complete, None)
            },
            Progress::Call(call) => {
                let PendingCall { snapshot, function_name, args, kwargs, call_id, method_call } = call;
                let meta = build_pending_meta(function_name, &args, &kwargs, call_id, method_call);
                self.state = HandleState::Paused { snapshot, meta };
                (MontyProgressTag::Pending, None)
            },
            Progress::Futures { futures, pending } => {
                let call_ids_json = ids_to_text(&pending);
                self.state = HandleState::Futures { futures, call_ids_json };
                (MontyProgressTag::ResolveFutures, None)
            },
            Progress::Lookup { .. } => self.handle_exception(
                make_bridge_report("unsupported progress type: NameLookup"),
            ),
            Progress::OsCall => self.handle_exception(make_bridge_report("unsupported progress type: OsCall")),
        }
    }

    /// Adds what a step printed to what was printed before.
    pub fn add_output(&mut self, printed: &str)
        ensures
            final(self)@ == (HandleModel {
                print_output: old(self)@.print_output + printed@,
                ..old(self)@
            }),
    {
        self.print_output.append(printed);
    }

    /// Adds to the usage a step that took the given time and after which
    /// the given memory was found in use.
    pub fn add_usage(&mut self, elapsed_ms: u64, memory_bytes: u64)
        ensures
            final(self)@ == (HandleModel {
                usage: usage_after(old(self)@.usage, elapsed_ms, memory_bytes),
                ..old(self)@
            }),
    {
        let time: u64 = if elapsed_ms > u64::MAX - self.usage.time_elapsed_ms {
            u64::MAX
        } else {
            self.usage.time_elapsed_ms + elapsed_ms
        };
        let memory: u64 = if memory_bytes > self.usage.memory_bytes_used {
            memory_bytes
        } else {
            self.usage.memory_bytes_used
        };
        self.usage = Usage {
            memory_bytes_used: memory,
            time_elapsed_ms: time,
            stack_depth_used: self.usage.stack_depth_used,
        };
    }

    /// Accounts for a call into the engine that began at the given point on
    /// the clock: reads the time it took and the memory now in use, and adds
    /// them to the usage.
    fn account(&mut self, started: &std::time::Instant)
        ensures
            exists|elapsed_ms: u64, memory_bytes: u64|
                final(self)@ == (HandleModel {
                    usage: #[trigger] usage_after(old(self)@.usage, elapsed_ms, memory_bytes),
                    ..old(self)@
                }),
    {
        let span = clock_elapsed(started);
        let elapsed = count_ms(whole_millis(&span));
        let used = count_memory(live_memory(), baseline_memory());
        self.add_usage(elapsed, used);
    }

    /// Completes the handle with the outcome of a run to the end: the value
    /// the script gave, or the report of the exception that ended it.
    pub fn finish_run(&mut self, outcome: Result<EngineValue, ExceptionReport>) -> (r: (
        MontyResultTag,
        String,
        Option<String>,
    ))
        ensures
            final(self)@ == (HandleModel {
                state: outcome_state(outcome, old(self)@.usage, old(self)@.print_output),
                ..old(self)@
            }),
            final(self)@.state matches StateModel::Complete { result_json, .. } && result_json == r.1@,
            match outcome {
                Ok(_) => r.0 == MontyResultTag::Success && r.2 is None,
                Err(e) => r.0 == MontyResultTag::Error && optional_text(r.2) == Some(e@.summary),
            },
    {
        match outcome {
            Ok(value) => {
                let val = monty_object_to_json(&value);
                let result_json = build_report(val, None, &self.usage, self.print_output.as_str());
                self.state = HandleState::Complete { result_json: result_json.clone(), is_error: false };
                (MontyResultTag::Success, result_json, None)
            },
            Err(exc) => {
                let err_json = monty_exception_to_json(&exc);
                let result_json = build_report(
                    Json::Null,
                    Some(err_json),
                    &self.usage,
                    self.print_output.as_str(),
                );
                self.state = HandleState::Complete { result_json: result_json.clone(), is_error: true };
                (MontyResultTag::Error, result_json, Some(exc.summary))
            },
        }
    }

    /// Runs the script of a ready handle to its end.  The handle is complete
    /// afterwards; the text returned is its report.  Any other state is
    /// refused and left as it is.
    pub fn run(&mut self) -> (r: (MontyResultTag, String, Option<String>))
        ensures
            run_outcome(old(self)@, final(self)@, r.0, r.1@, optional_text(r.2)),
    {
        let mut state = HandleState::Consumed;
        std::mem::swap(&mut self.state, &mut state);
        match state {
            HandleState::Ready(compiled) => {
                let settings = self.tracker();
                let tracker = make_tracker(
                    settings.max_memory,
                    settings.max_duration_ms,
                    settings.max_recursion_depth,
                );
                let started = clock_now();
                let (result, printed) = engine_run(&compiled, tracker);
                self.account(&started);
                self.add_output(printed.as_str());
                let outcome = match result {
                    Ok(object) => Ok(import_value(&object)),
                    Err(exc) => Err(import_exception(&exc)),
                };
                let ghost mid = self@;
                let ghost value = if outcome is Ok {
                    encode(outcome->Ok_0@)
                } else {
                    JsonModel::Null
                };
                let ghost error = if outcome is Ok {
                    None
                } else {
                    Some(exception_json(outcome->Err_0@))
                };
                let r = self.finish_run(outcome);
                proof {
                    lemma_prefix_extends(old(self)@.print_output, old(self)@.print_output, printed@);
                    lemma_ran(old(self)@, mid, self@, r.0, r.1@, optional_text(r.2), value, error);
                }
                r
            },
            other => {
                self.state = other;
                (MontyResultTag::Error, String::new(), Some(self.wrong_state("handle not in Ready state")))
            },
        }
    }

    /// Carries a step of the engine to the next state of the handle.  What
    /// the step printed is added to what was printed, as [`add_output`]
    /// says.  The progress is dealt with as [`next_move`] decides, with
    /// [`MAX_AUTO_ANSWERS`] answers to give at the start of the step; what
    /// the engine answers at last settles the state, as
    /// [`process_progress`] and [`handle_exception`] say.
    ///
    /// [`add_output`]: MontyHandle::add_output
    /// [`process_progress`]: MontyHandle::process_progress
    /// [`handle_exception`]: MontyHandle::handle_exception
    fn advance(&mut self, first: RawStep) -> (r: (MontyProgressTag, Option<String>))
        ensures
            stepped(old(self)@, final(self)@, r.0, optional_text(r.1)),
    {
        let mut raw = first;
        let mut budget: usize = MAX_AUTO_ANSWERS;
        loop
            invariant
                self@.limits == old(self)@.limits,
                self@.external_functions == old(self)@.external_functions,
                usage_grew(old(self)@.usage, self@.usage),
                old(self)@.print_output.is_prefix_of(self@.print_output),
            decreases budget,
        {
            let RawStep { outcome, printed } = raw;
            let ghost before = self@.print_output;
            self.add_output(printed.as_str());
            proof {
                lemma_prefix_extends(old(self)@.print_output, before, printed@);
            }
            match outcome {
                Err(exc) => {
                    let report = import_exception(&exc);
                    return self.fail(report, Ghost(old(self)@));
                },
                Ok(engine_progress) => {
                    let progress = import_progress(engine_progress);
                    match next_move(progress, &self.external_functions, budget) {
                        Move::AnswerLookup { lookup, function } => {
                            budget -= 1;
                            let started = clock_now();
                            raw = engine_resume_lookup(lookup, function);
                            self.account(&started);
                        },
                        Move::RefuseCall { snapshot, function_name } => {
                            budget -= 1;
                            let started = clock_now();
                            raw = engine_resume(snapshot, export_reply(Reply::NotFound(function_name)));
                            self.account(&started);
                        },
                        Move::Settle(other) => {
                            return self.settle(other, Ghost(old(self)@));
                        },
                    }
                },
            }
        }
    }

    /// Moves the handle to the state that the progress of a step calls for.
    fn settle(&mut self, progress: Progress, Ghost(pre): Ghost<HandleModel>) -> (r: (
        MontyProgressTag,
        Option<String>,
    ))
        requires
            old(self)@.limits == pre.limits,
            old(self)@.external_functions == pre.external_functions,
            usage_grew(pre.usage, old(self)@.usage),
            pre.print_output.is_prefix_of(old(self)@.print_output),
        ensures
            stepped(pre, final(self)@, r.0, optional_text(r.1)),
    {
        let ghost mid = self@;
        let ghost value = if progress is Complete {
            encode(progress->Complete_0@)
        } else {
            JsonModel::Null
        };
        let ghost error = if progress is Complete {
            None
        } else {
            Some(exception_json(bridge_report(unsupported_message(progress))))
        };
        let r = self.process_progress(progress);
        proof {
            lemma_stepped(pre, mid, self@, r.0, optional_text(r.1), value, error);
        }
        r
    }

    /// Completes the handle with the report of the exception that ended a
    /// step.
    fn fail(&mut self, report: ExceptionReport, Ghost(pre): Ghost<HandleModel>) -> (r: (
        MontyProgressTag,
        Option<String>,
    ))
        requires
            old(self)@.limits == pre.limits,
            old(self)@.external_functions == pre.external_functions,
            usage_grew(pre.usage, old(self)@.usage),
            pre.print_output.is_prefix_of(old(self)@.print_output),
        ensures
            stepped(pre, final(self)@, r.0, optional_text(r.1)),
    {
        let ghost mid = self@;
        let ghost error = Some(exception_json(report@));
        let r = self.handle_exception(report);
        proof {
            lemma_stepped(pre, mid, self@, r.0, optional_text(r.1), JsonModel::Null, error);
        }
        r
    }

    /// Starts the script of a ready handle and runs it to its first
    /// suspension or to its end.  Any other state is refused and left as it
    /// is.
    pub fn start(&mut self) -> (r: (MontyProgressTag, Option<String>))
        ensures
            start_outcome(old(self)@, final(self)@, r.0, optional_text(r.1)),
    {
        let mut state = HandleState::Consumed;
        std::mem::swap(&mut self.state, &mut state);
        match state {
            HandleState::Ready(compiled) => {
                let settings = self.tracker();
                let tracker = make_tracker(
                    settings.max_memory,
                    settings.max_duration_ms,
                    settings.max_recursion_depth,
                );
                let started = clock_now();
                let raw = engine_start(compiled, tracker);
                self.account(&started);
                let ghost mid = self@;
                let r = self.advance(raw);
                proof {
                    lemma_stepped_after(old(self)@, mid, self@, r.0, optional_text(r.1));
                }
                r
            },
            other => {
                self.state = other;
                (MontyProgressTag::Error, Some(self.wrong_state("handle not in Ready state")))
            },
        }
    }

    /// Answers the pending call of a paused handle and runs the script on.
    /// Any other state is refused and left as it is.
    fn resume_with_result(&mut self, reply: Reply) -> (r: (MontyProgressTag, Option<String>))
        requires
            reply.sendable(),
        ensures
            answer_outcome(old(self)@, final(self)@, r.0, optional_text(r.1)),
    {
        let mut state = HandleState::Consumed;
        std::mem::swap(&mut self.state, &mut state);
        match state {
            HandleState::Paused { snapshot, meta } => {
                let started = clock_now();
                let raw = engine_resume(snapshot, export_reply(reply));
                self.account(&started);
                let ghost mid = self@;
                let r = self.advance(raw);
                proof {
                    lemma_stepped_after(old(self)@, mid, self@, r.0, optional_text(r.1));
                }
                r
            },
            other => {
                self.state = other;
                (MontyProgressTag::Error, Some(self.wrong_state("handle not in Paused state")))
            },
        }
    }

    /// Answers the pending call of a paused handle with a value, given as
    /// JSON text, and runs the script on.  A text that cannot be read is
    /// refused with the reader's message; a handle that is not paused is
    /// refused; either way the handle is left as it is.
    pub fn resume(&mut self, value_json: &str) -> (r: (MontyProgressTag, Option<String>))
        ensures
            resume_outcome(value_json@, old(self)@, final(self)@, r.0, optional_text(r.1)),
    {
        match read_reply(value_json) {
            Err(message) => (MontyProgressTag::Error, Some(message)),
            Ok(reply) => self.resume_with_result(reply),
        }
    }

    /// Answers the pending call of a paused handle with an error of the
    /// host, which the script may catch, and runs the script on.  A handle
    /// that is not paused is refused and left as it is.
    pub fn resume_with_error(&mut self, error_message: &str) -> (r: (MontyProgressTag, Option<String>))
        ensures
            answer_outcome(old(self)@, final(self)@, r.0, optional_text(r.1)),
    {
        self.resume_with_result(error_reply(error_message))
    }

    /// Turns the pending call of a paused handle into a future and runs the
    /// script on until every task waits for one, or until its next call or
    /// its end.  A handle that is not paused is refused and left as it is.
    pub fn resume_as_future(&mut self) -> (r: (MontyProgressTag, Option<String>))
        ensures
            answer_outcome(old(self)@, final(self)@, r.0, optional_text(r.1)),
    {
        let mut state = HandleState::Consumed;
        std::mem::swap(&mut self.state, &mut state);
        match state {
            HandleState::Paused { snapshot, meta } => {
                let started = clock_now();
                let raw = engine_resume_pending(snapshot);
                self.account(&started);
                let ghost mid = self@;
                let r = self.advance(raw);
                proof {
                    lemma_stepped_after(old(self)@, mid, self@, r.0, optional_text(r.1));
                }
                r
            },
            other => {
                self.state = other;
                (MontyProgressTag::Error, Some(self.wrong_state("handle not in Paused state")))
            },
        }
    }

    /// Resolves outstanding calls of a handle that awaits futures and runs
    /// the script on.  The results and the errors are the texts of JSON
    /// objects keyed by call identifier; a result is a value, an error a
    /// message.  Texts and keys that cannot be read are refused, and so is a
    /// handle in any other state; the handle is then left as it is.
    pub fn resume_futures(&mut self, results_json: &str, errors_json: &str) -> (r: (
        MontyProgressTag,
        Option<String>,
    ))
        ensures
            futures_outcome(results_json@, errors_json@, old(self)@, final(self)@, r.0, optional_text(r.1)),
    {
        let answers = match read_replies(results_json, errors_json) {
            Ok(answers) => answers,
            Err(message) => {
                return (MontyProgressTag::Error, Some(message));
            },
        };
        let mut replies: Vec<(u32, monty_types::ExtFunctionResult)> = Vec::new();
        let mut answers = answers;
        while answers.len() > 0
            invariant
                self@ == old(self)@,
                forall|k: int| 0 <= k < answers.len() ==> (#[trigger] answers@[k]).1.sendable(),
            decreases answers.len(),
        {
            let (call_id, reply) = answers.remove(0);
            replies.push((call_id, export_reply(reply)));
        }
        let mut state = HandleState::Consumed;
        std::mem::swap(&mut self.state, &mut state);
        match state {
            HandleState::Futures { futures, call_ids_json } => {
                let started = clock_now();
                let raw = engine_resume_futures(futures, replies);
                self.account(&started);
                let ghost mid = self@;
                let r = self.advance(raw);
                proof {
                    lemma_stepped_after(old(self)@, mid, self@, r.0, optional_text(r.1));
                }
                r
            },
            other => {
                self.state = other;
                (MontyProgressTag::Error, Some(self.wrong_state("handle not in Futures state")))
            },
        }
    }
}

} // verus!
