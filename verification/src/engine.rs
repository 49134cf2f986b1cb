//! The script engine, as far as the bridge needs it.
//!
//! The engine is the `monty` interpreter.  What it compiles and what it
//! suspends are values of its own, carried through the bridge untouched; what
//! the bridge reads of them is copied into the library's own types.  Nothing
//! is proved of the engine here: a function of this file makes one call into
//! the engine, or changes the type of a value that crosses the boundary, and
//! says in its comment what is taken on trust.
//!
//! A call that executes a script returns when the script ends, suspends or
//! breaks a limit; a script that never does, run without a time limit, keeps
//! the call from returning.  The engine documents that it panics only on a
//! fault of its own.

use vstd::prelude::*;
use crate::convert::host_data;
use crate::error::{ExceptionReport, Frame};
use crate::text::name_texts;
use crate::value::{BigInteger, EngineModel, EngineValue};

verus! {

/// A compiled script of the engine.
#[verifier::external_type_specification]
#[verifier::external_body]
pub struct ExMontyRun(monty::MontyRun);

/// How far a step of the engine got, in the engine's own terms.
#[verifier::external_type_specification]
#[verifier::external_body]
pub struct ExRunProgress(monty::RunProgress);

/// The engine's record of a script suspended at a call of a host function.
#[verifier::external_type_specification]
#[verifier::external_body]
pub struct ExFunctionCall(monty::FunctionCall);

/// The engine's record of a script whose tasks all wait for host calls.
#[verifier::external_type_specification]
#[verifier::external_body]
pub struct ExResolveFutures(monty::ResolveFutures);

/// The engine's record of a script suspended at a name it has not defined.
#[verifier::external_type_specification]
#[verifier::external_body]
pub struct ExNameLookup(monty::NameLookup);

/// A value of the engine.
#[verifier::external_type_specification]
#[verifier::external_body]
pub struct ExMontyObject(monty_types::MontyObject);

/// An exception of the engine.
#[verifier::external_type_specification]
#[verifier::external_body]
pub struct ExMontyException(monty_types::MontyException);

/// The answer to a host call, in the engine's own terms.
#[verifier::external_type_specification]
#[verifier::external_body]
pub struct ExExtFunctionResult(monty_types::ExtFunctionResult);

/// The engine's keeper of resource limits.
#[verifier::external_type_specification]
#[verifier::external_body]
pub struct ExResourceTracker(monty_types::ResourceTracker);

/// A point on the monotonic clock of the machine.
#[verifier::external_type_specification]
#[verifier::external_body]
pub struct ExInstant(std::time::Instant);

/// A host call at which the engine has suspended: the engine's own record,
/// and beside it what the bridge reads of it.
pub struct PendingCall {
    pub snapshot: monty::FunctionCall,
    pub function_name: String,
    pub args: Vec<EngineValue>,
    /// The keyword arguments, each name as the engine renders its key.
    pub kwargs: Vec<(String, EngineValue)>,
    pub call_id: u32,
    /// Whether the call is a method call on an object of the host.
    pub method_call: bool,
}

/// How far one step of execution got.
pub enum Progress {
    /// The script ran to its end and gave a value.
    Complete(EngineValue),
    /// The script calls a function of the host.
    Call(PendingCall),
    /// Every task of the script waits for the result of a host call.
    Futures { futures: monty::ResolveFutures, pending: Vec<u32> },
    /// The script reads a name it has not defined.
    Lookup { lookup: monty::NameLookup, name: String },
    /// The script asks for an operation of the operating system.
    OsCall,
}

/// The kind of exception as which a failure of the host is raised in the
/// script.
#[derive(Debug, Clone, Copy, PartialEq, Eq)]
pub enum ErrorKind {
    /// The engine's runtime error.
    Runtime,
}

/// What the host answers to a call.
pub enum Reply {
    /// The call returned a value.
    Return(EngineValue),
    /// The call failed: the kind of exception to raise, and its message.
    Error(ErrorKind, String),
    /// The host has no function of the name.
    NotFound(String),
}

/// The mathematical model of a [`Reply`].
pub enum ReplyModel {
    Return(EngineModel),
    Error(ErrorKind, Seq<char>),
    NotFound(Seq<char>),
}

impl View for Reply {
    type V = ReplyModel;

    open spec fn view(&self) -> ReplyModel {
        match self {
            Reply::Return(value) => ReplyModel::Return(value@),
            Reply::Error(kind, message) => ReplyModel::Error(*kind, message@),
            Reply::NotFound(name) => ReplyModel::NotFound(name@),
        }
    }
}

impl Reply {
    /// Whether the engine takes the reply: a value that is returned is of
    /// the kinds a host can supply.
    pub open spec fn sendable(self) -> bool {
        self matches Reply::Return(value) ==> host_data(value@)
    }
}

/// What one call into the engine gave: how far execution got or the
/// exception that ended it, and what the script printed meanwhile.
pub struct RawStep {
    pub outcome: Result<monty::RunProgress, monty_types::MontyException>,
    pub printed: String,
}

/// Compiles a script with `MontyRun::new`, without inputs and with the
/// default compile options.  Which scripts compile, and what the report of
/// one that does not says, is the engine's: nothing is promised of either.
/// Neither is a function of the code and the label alone.  The engine keeps
/// names in sets whose hasher is seeded anew for each set, and gives the
/// names that a comprehension binds by assignment expressions their slots
/// in the order in which such a set hands them out; whether a local can be
/// unbound, and how long the instruction is that loads it, depends on its
/// slot.  So one and the same script, near a limit of the engine's
/// bytecode, compiles at one time and not at another.
#[verifier::external_body]
pub(crate) fn engine_compile(code: String, script_name: &str) -> Result<
    monty::MontyRun,
    monty_types::MontyException,
> {
    monty::MontyRun::new(code, script_name, vec![], monty_types::CompileOptions::default())
}

/// Reads the monotonic clock with `Instant::now`.
#[verifier::external_body]
pub(crate) fn clock_now() -> std::time::Instant {
    std::time::Instant::now()
}

/// The time that has passed since a point on the clock, with
/// `Instant::elapsed`.
#[verifier::external_body]
pub(crate) fn clock_elapsed(started: &std::time::Instant) -> std::time::Duration {
    started.elapsed()
}

/// The whole milliseconds of a span of time, with `Duration::as_millis`.
#[verifier::external_body]
pub(crate) fn whole_millis(span: &std::time::Duration) -> u128 {
    span.as_millis()
}

/// Reads the engine's count of the bytes that its allocator has handed out,
/// `monty_types::LIVE_MEMORY`.  The count moves only where the host has
/// installed the engine's allocator.
#[verifier::external_body]
pub(crate) fn live_memory() -> usize {
    monty_types::LIVE_MEMORY.load(std::sync::atomic::Ordering::Relaxed)
}

/// Reads the engine's count of the bytes that were in use before any
/// execution, `monty_types::BASELINE_MEMORY`.
#[verifier::external_body]
pub(crate) fn baseline_memory() -> usize {
    monty_types::BASELINE_MEMORY.load(std::sync::atomic::Ordering::Relaxed)
}

/// Makes a resource tracker with `ResourceTracker::new`.  The limits are
/// handed over as they are, a duration as milliseconds; the rest is left at
/// the engine's defaults.
#[verifier::external_body]
pub(crate) fn make_tracker(
    max_memory: Option<usize>,
    max_duration_ms: Option<u64>,
    max_recursion_depth: usize,
) -> monty_types::ResourceTracker {
    monty_types::ResourceTracker::new(
        monty_types::ResourceLimits {
            max_memory,
            max_duration: max_duration_ms.map(std::time::Duration::from_millis),
            max_recursion_depth,
            ..Default::default()
        },
    )
}

/// Runs a compiled script to its end with `MontyRun::run`, collecting what
/// it prints.
#[verifier::external_body]
pub(crate) fn engine_run(run: &monty::MontyRun, tracker: monty_types::ResourceTracker) -> (
    Result<monty_types::MontyObject, monty_types::MontyException>,
    String,
) {
    let mut printed = String::new();
    let outcome = run.run(vec![], tracker, monty_types::PrintWriter::CollectString(&mut printed, None));
    (outcome, printed)
}

/// Starts a compiled script with `MontyRun::start`, collecting what it
/// prints until it suspends or ends.
#[verifier::external_body]
pub(crate) fn engine_start(run: monty::MontyRun, tracker: monty_types::ResourceTracker) -> RawStep {
    let mut printed = String::new();
    let outcome = run.start(vec![], tracker, monty_types::PrintWriter::CollectString(&mut printed, None));
    RawStep { outcome, printed }
}

/// Answers a suspended host call with `FunctionCall::resume`.
#[verifier::external_body]
pub(crate) fn engine_resume(call: monty::FunctionCall, reply: monty_types::ExtFunctionResult) -> RawStep {
    let mut printed = String::new();
    let outcome = call.resume(reply, monty_types::PrintWriter::CollectString(&mut printed, None));
    RawStep { outcome, printed }
}

/// Turns a suspended host call into a pending future with
/// `FunctionCall::resume_pending`.
#[verifier::external_body]
pub(crate) fn engine_resume_pending(call: monty::FunctionCall) -> RawStep {
    let mut printed = String::new();
    let outcome = call.resume_pending(monty_types::PrintWriter::CollectString(&mut printed, None));
    RawStep { outcome, printed }
}

/// Resolves pending futures with `ResolveFutures::resume`.
#[verifier::external_body]
pub(crate) fn engine_resume_futures(
    futures: monty::ResolveFutures,
    replies: Vec<(u32, monty_types::ExtFunctionResult)>,
) -> RawStep {
    let mut printed = String::new();
    let outcome = futures.resume(replies, monty_types::PrintWriter::CollectString(&mut printed, None));
    RawStep { outcome, printed }
}

/// Answers a name lookup with `NameLookup::resume`: with the function of the
/// host of the given name, or with the answer that the name is undefined.
#[verifier::external_body]
pub(crate) fn engine_resume_lookup(lookup: monty::NameLookup, function: Option<String>) -> RawStep {
    let mut printed = String::new();
    let answer = function.map(|name| monty_types::MontyObject::Function { name, docstring: None });
    let outcome = lookup.resume(answer, monty_types::PrintWriter::CollectString(&mut printed, None));
    RawStep { outcome, printed }
}

/// What `postcard::take_from_bytes` reads from bytes taken as a compiled
/// script and the names of the host's functions: the names, and how many
/// bytes it leaves unread behind the pair; or, where it reads no such pair,
/// the display text of its error.
pub uninterp spec fn unit_read(bytes: Seq<u8>) -> Result<(Seq<Seq<char>>, nat), Seq<char>>;

/// Writes a compiled script and the names of the host's functions as bytes
/// with `postcard::to_allocvec`; an error is given as its display text.
/// Whether bytes come back is the serializer's: the engine documents of its
/// own dumps that writing them may fail.  Taken on trust of bytes that do
/// come back: that they read back, to their end, as a script with the same
/// names.  The engine says of a compiled script that a host may serialize it
/// to keep it, and writes its own dumps in this format.
#[verifier::external_body]
pub(crate) fn encode_unit(run: &monty::MontyRun, functions: &Vec<String>) -> (r: Result<Vec<u8>, String>)
    ensures
        r matches Ok(bytes) ==> (unit_read(bytes@) matches Ok(read) && read.0 == name_texts(functions@) && read.1
            == 0),
{
    postcard::to_allocvec(&(run, functions)).map_err(|e| e.to_string())
}

/// Reads with `postcard::take_from_bytes` what [`encode_unit`] wrote, and
/// tells how many bytes are left behind it; an error is given as its display
/// text.  The outcome is the one that [`unit_read`] names.  Taken on trust
/// beyond that: that reading any bytes returns, and that a script read from
/// them can be run.  Only the shape of the bytes is checked; the engine asks
/// that they come from a snapshot, and may panic on a script that was
/// forged.
#[verifier::external_body]
pub(crate) fn decode_unit(bytes: &[u8]) -> (r: Result<(monty::MontyRun, Vec<String>, usize), String>)
    ensures
        match r {
            Ok(unit) => unit_read(bytes@) matches Ok(read) && read.0 == name_texts(unit.1@) && read.1 == unit.2,
            Err(e) => unit_read(bytes@) matches Err(cause) && cause == e@,
        },
{
    match postcard::take_from_bytes::<(monty::MontyRun, Vec<String>)>(bytes) {
        Ok(((run, functions), rest)) => Ok((run, functions, rest.len())),
        Err(e) => Err(e.to_string()),
    }
}

/// Hands a reply to the engine, variant by variant.  An error becomes the
/// engine's exception of its kind with the given message, made with
/// `MontyException::new`.  A value that is returned must be of the kinds a
/// host can supply.
#[verifier::external_body]
pub(crate) fn export_reply(reply: Reply) -> monty_types::ExtFunctionResult
    requires
        reply.sendable(),
{
    match reply {
        Reply::Return(value) => monty_types::ExtFunctionResult::Return(export_value(&value)),
        Reply::Error(ErrorKind::Runtime, message) => monty_types::ExtFunctionResult::Error(
            monty_types::MontyException::new(monty_types::ExcType::RuntimeError, Some(message)),
        ),
        Reply::NotFound(name) => monty_types::ExtFunctionResult::NotFound(name),
    }
}

/// Hands a value to the engine, variant by variant.  Only the kinds a host
/// can supply have a counterpart; the last arm is for the others, which the
/// `requires` of [`export_reply`] leaves out.
#[verifier::external_body]
fn export_value(value: &EngineValue) -> monty_types::MontyObject {
    match value {
        EngineValue::Bool(b) => monty_types::MontyObject::Bool(*b),
        EngineValue::Int(n) => monty_types::MontyObject::Int(*n),
        EngineValue::Float(bits) => monty_types::MontyObject::Float(
            num_traits::FromBytes::from_ne_bytes(&bits.to_ne_bytes()),
        ),
        EngineValue::String(s) => monty_types::MontyObject::String(s.clone()),
        EngineValue::List(items) => monty_types::MontyObject::List(items.iter().map(export_value).collect()),
        EngineValue::Dict(entries) => monty_types::MontyObject::Dict(
            entries.iter().map(|(k, v)| (export_value(k), export_value(v))).collect(),
        ),
        _ => monty_types::MontyObject::None,
    }
}

/// Takes a value from the engine: the variants without parts.  A floating
/// point number comes as its bit pattern, a big integer as the sign and
/// digits that `BigInt::to_u32_digits` gives.
#[verifier::external_body]
pub(crate) fn import_value(object: &monty_types::MontyObject) -> EngineValue {
    match object {
        monty_types::MontyObject::None => EngineValue::Null,
        monty_types::MontyObject::Ellipsis => EngineValue::Ellipsis,
        monty_types::MontyObject::NotImplemented => EngineValue::NotImplemented,
        monty_types::MontyObject::Bool(b) => EngineValue::Bool(*b),
        monty_types::MontyObject::Int(n) => EngineValue::Int(*n),
        monty_types::MontyObject::BigInt(n) => EngineValue::BigInt(
            BigInteger { negative: n.sign() == num_bigint::Sign::Minus, digits: n.to_u32_digits().1 },
        ),
        monty_types::MontyObject::Float(f) => EngineValue::Float(f.to_bits()),
        monty_types::MontyObject::String(s) => EngineValue::String(s.clone()),
        monty_types::MontyObject::Bytes(b) => EngineValue::Bytes(b.clone()),
        other => import_container(other),
    }
}

/// Takes a sequence of values from the engine, element by element.
fn import_values(objects: &Vec<monty_types::MontyObject>) -> (values: Vec<EngineValue>)
    ensures
        values.len() == objects.len(),
{
    let mut values: Vec<EngineValue> = Vec::new();
    let mut i: usize = 0;
    while i < objects.len()
        invariant
            i <= objects.len(),
            values.len() == i,
        decreases objects.len() - i,
    {
        values.push(import_value(&objects[i]));
        i += 1;
    }
    values
}

/// Takes an entry of a mapping from the engine.
fn import_entry(entry: &(monty_types::MontyObject, monty_types::MontyObject)) -> (EngineValue, EngineValue) {
    (import_value(&entry.0), import_value(&entry.1))
}

/// Takes a value from the engine: the variants made of other values.  Of a
/// named tuple the values are taken, of a class instance the attributes.
#[verifier::external_body]
fn import_container(object: &monty_types::MontyObject) -> EngineValue {
    match object {
        monty_types::MontyObject::List(v) => EngineValue::List(import_values(v)),
        monty_types::MontyObject::Tuple(v) => EngineValue::Tuple(import_values(v)),
        monty_types::MontyObject::NamedTuple { values, .. } => EngineValue::NamedTuple(import_values(values)),
        monty_types::MontyObject::Set(v) => EngineValue::MutableSet(import_values(v)),
        monty_types::MontyObject::FrozenSet(v) => EngineValue::FrozenSet(import_values(v)),
        monty_types::MontyObject::Dict(d) => EngineValue::Dict(d.iter().map(import_entry).collect()),
        monty_types::MontyObject::ClassInstance(c) => EngineValue::Instance(
            c.attrs.iter().map(import_entry).collect(),
        ),
        other => import_rendered(other),
    }
}

/// Takes a value from the engine: the variants of which a text crosses.  A
/// type comes as its display text, a builtin function as its debug text, an
/// exception with the display text of its type, and every variant not named
/// in these three functions as its own display text.
#[verifier::external_body]
fn import_rendered(object: &monty_types::MontyObject) -> EngineValue {
    match object {
        monty_types::MontyObject::Path(p) => EngineValue::Path(p.clone()),
        monty_types::MontyObject::Exception { exc_type, arg } => EngineValue::Exception {
            exc_type: exc_type.to_string(),
            arg: arg.clone(),
        },
        monty_types::MontyObject::Type(t) => EngineValue::Type(format!("{t}")),
        monty_types::MontyObject::BuiltinFunction(f) => EngineValue::BuiltinFunction(format!("{f:?}")),
        monty_types::MontyObject::Repr(r) => EngineValue::Repr(r.clone()),
        monty_types::MontyObject::Cycle(_, placeholder) => EngineValue::Cycle(placeholder.clone()),
        other => EngineValue::Opaque(other.to_string()),
    }
}

/// Takes the report of an exception from the engine: what `summary` gives,
/// the display text of what `exc_type` gives, and the frames of `traceback`
/// field by field.
#[verifier::external_body]
pub(crate) fn import_exception(e: &monty_types::MontyException) -> ExceptionReport {
    let traceback = e.traceback().iter().map(|f| Frame {
        filename: f.filename.clone(),
        start_line: f.start.line,
        start_column: f.start.column,
        end_line: f.end.line,
        end_column: f.end.column,
        frame_name: f.frame_name.clone(),
        preview_line: f.preview_line.as_ref().map(|line| line.to_string()),
        hide_caret: f.hide_caret,
        hide_frame_name: f.hide_frame_name,
    }).collect();
    ExceptionReport { summary: e.summary(), exc_type: e.exc_type().to_string(), traceback }
}

/// Takes a suspended host call from the engine, field by field.  The name of
/// a keyword argument is the display text of its key; the call is a method
/// call where it names an object of the host.
#[verifier::external_body]
fn import_call(call: monty::FunctionCall) -> PendingCall {
    PendingCall {
        function_name: call.function_name.clone(),
        args: import_values(&call.args),
        kwargs: call.kwargs.iter().map(|(k, v)| (k.to_string(), import_value(v))).collect(),
        call_id: call.call_id,
        method_call: call.object_id.is_some(),
        snapshot: call,
    }
}

/// Takes the progress of a step from the engine, variant by variant.  Of
/// pending futures the call identifiers are copied from `pending_call_ids`.
#[verifier::external_body]
pub(crate) fn import_progress(progress: monty::RunProgress) -> Progress {
    match progress {
        monty::RunProgress::Complete(object) => Progress::Complete(import_value(&object)),
        monty::RunProgress::FunctionCall(call) => Progress::Call(import_call(call)),
        monty::RunProgress::ResolveFutures(futures) => Progress::Futures {
            pending: futures.pending_call_ids().to_vec(),
            futures,
        },
        monty::RunProgress::NameLookup(lookup) => Progress::Lookup { name: lookup.name.clone(), lookup },
        monty::RunProgress::OsCall(_) => Progress::OsCall,
    }
}

} // verus!
