//! The operations of a handle as a host reaches them across the boundary.
//!
//! A host hands over what it has: a handle or none, the bytes of a text or
//! none.  Each function here checks what it was given before it does any
//! work, and answers a missing or unreadable argument with a message
//! instead of touching the handle.

use vstd::prelude::*;
use vstd::utf8::{decode_utf8, valid_utf8};
use crate::error::ExceptionReport;
use crate::handle::{
    answer_outcome, default_script_name, futures_outcome, initial_model, limits_or_none, refused,
    restore_outcome, resume_outcome, run_outcome, snapshot_functions, start_outcome, with_limits,
    HandleModel, Limits, MontyHandle, StateModel,
};
use crate::report::PendingModel;
use crate::tags::{MontyProgressTag, MontyResultTag};
use crate::text::{
    function_names, name_texts, optional_bytes, optional_text, parse_c_str, split_names,
    text_argument,
};

verus! {

/// What is said where no handle was given.
pub open spec fn no_handle() -> Seq<char> {
    "handle is NULL"@
}

/// The pending call of a handle, if it is paused.
pub open spec fn pending_call(handle: Option<&MontyHandle>) -> Option<PendingModel> {
    match handle {
        Some(h) => match h@.state {
            StateModel::Paused(p) => Some(p),
            _ => None,
        },
        None => None,
    }
}

/// The result of a handle, if it is complete: the text of the report, and
/// whether it reports an error.
pub open spec fn completed(handle: Option<&MontyHandle>) -> Option<(Seq<char>, bool)> {
    match handle {
        Some(h) => match h@.state {
            StateModel::Complete { result_json, is_error } => Some((result_json, is_error)),
            _ => None,
        },
        None => None,
    }
}

/// The code of an optional flag: 1 for true, 0 for false, -1 for absent.
pub open spec fn flag_code(flag: Option<bool>) -> int {
    match flag {
        Some(true) => 1,
        Some(false) => 0,
        None => -1,
    }
}

/// Copies an optional text.
fn owned(text: Option<&str>) -> (r: Option<String>)
    ensures
        match text {
            Some(s) => r matches Some(t) && t@ == s@,
            None => r is None,
        },
{
    match text {
        Some(s) => Some(s.to_owned()),
        None => None,
    }
}

/// What a request to create a handle asks for, once its arguments are
/// read: the code, the names of the host's functions and the label of the
/// script; or the message for the first argument that cannot be read.
pub open spec fn create_request(
    code: Option<Seq<u8>>,
    ext_fns: Option<Seq<u8>>,
    script_name: Option<Seq<u8>>,
) -> Result<(Seq<char>, Seq<Seq<char>>, Seq<char>), Seq<char>> {
    match text_argument(code, "code"@) {
        Err(e) => Err(e),
        Ok(code_text) => if ext_fns is Some && !valid_utf8(ext_fns->Some_0) {
            Err("ext_fns is not valid UTF-8"@)
        } else if script_name is Some && !valid_utf8(script_name->Some_0) {
            Err("script_name is not valid UTF-8"@)
        } else {
            Ok(
                (
                    code_text,
                    match ext_fns {
                        Some(b) => function_names(decode_utf8(b)),
                        None => seq![],
                    },
                    match script_name {
                        Some(b) => decode_utf8(b),
                        None => default_script_name(),
                    },
                ),
            )
        },
    }
}

/// What creating a handle gives: the message for the first argument that
/// cannot be read; else, as the engine decides, a new handle for the host
/// functions named, or a message.  Which of the two is the engine's, and
/// not settled by what was read: the engine may compile a script at one
/// time and refuse it at another.
pub open spec fn create_outcome(
    code: Option<Seq<u8>>,
    ext_fns: Option<Seq<u8>>,
    script_name: Option<Seq<u8>>,
    r: Result<MontyHandle, String>,
) -> bool {
    match create_request(code, ext_fns, script_name) {
        Err(e) => r matches Err(m) && m@ == e,
        Ok(request) => r matches Ok(h) ==> h@ == initial_model(request.1),
    }
}

/// What a host is given of an attempt to compile: the handle, or the
/// summary of the engine's report.
pub fn created(made: Result<MontyHandle, ExceptionReport>) -> (r: Result<MontyHandle, String>)
    ensures
        match made {
            Ok(h) => r == Ok::<MontyHandle, String>(h),
            Err(e) => r matches Err(m) && m@ == e@.summary,
        },
{
    match made {
        Ok(handle) => Ok(handle),
        Err(exc) => Err(exc.summary),
    }
}

/// The model of what was read of a request to create a handle.
pub open spec fn request_view(r: Result<(String, Vec<String>, String), String>) -> Result<
    (Seq<char>, Seq<Seq<char>>, Seq<char>),
    Seq<char>,
> {
    match r {
        Ok(request) => Ok((request.0@, name_texts(request.1@), request.2@)),
        Err(e) => Err(e@),
    }
}

/// Reads the arguments of a request to create a handle: the code, the names
/// of the host's functions and the label under which the script is
/// compiled.
pub fn read_request(code: Option<&[u8]>, ext_fns: Option<&[u8]>, script_name: Option<&[u8]>) -> (r: Result<
    (String, Vec<String>, String),
    String,
>)
    ensures
        request_view(r) == create_request(
            optional_bytes(code),
            optional_bytes(ext_fns),
            optional_bytes(script_name),
        ),
{
    let code_text = match parse_c_str(code, "code") {
        Ok(s) => s,
        Err(e) => {
            return Err(e);
        },
    };
    let ext_fn_list = match ext_fns {
        None => {
            let list: Vec<String> = Vec::new();
            assert(name_texts(list@) =~= Seq::<Seq<char>>::empty());
            list
        },
        Some(_) => match parse_c_str(ext_fns, "ext_fns") {
            Ok(s) => split_names(s.as_str()),
            Err(_) => {
                return Err("ext_fns is not valid UTF-8".to_owned());
            },
        },
    };
    let name = match script_name {
        None => None,
        Some(_) => match parse_c_str(script_name, "script_name") {
            Ok(s) => Some(s),
            Err(_) => {
                return Err("script_name is not valid UTF-8".to_owned());
            },
        },
    };
    Ok((code_text, ext_fn_list, MontyHandle::label(name)))
}

/// Creates a handle from the code of a script, the names of the host's
/// functions separated by commas, and the label of the script.  The names
/// and the label may be missing.  The arguments are read as
/// [`read_request`] says; the engine compiles what was read, and the host
/// is given what [`created`] makes of the engine's answer.
pub fn monty_create(code: Option<&[u8]>, ext_fns: Option<&[u8]>, script_name: Option<&[u8]>) -> (r: Result<
    MontyHandle,
    String,
>)
    ensures
        create_outcome(optional_bytes(code), optional_bytes(ext_fns), optional_bytes(script_name), r),
{
    match read_request(code, ext_fns, script_name) {
        Err(e) => Err(e),
        Ok(request) => {
            let (code_text, ext_fn_list, label) = request;
            created(MontyHandle::new(code_text, ext_fn_list, Some(label)))
        },
    }
}

/// Runs the script of a handle to its end.  Gives the tag, the text of the
/// result report where a handle was given, and a message on failure.
pub fn monty_run(handle: Option<&mut MontyHandle>) -> (r: (MontyResultTag, Option<String>, Option<String>))
    ensures
        match handle {
            None => r.0 == MontyResultTag::Error && r.1 is None && optional_text(r.2) == Some(no_handle()),
            Some(h) => r.1 matches Some(result_json) && run_outcome(
                (*h)@,
                (*final(h))@,
                r.0,
                result_json@,
                optional_text(r.2),
            ),
        },
{
    match handle {
        None => (MontyResultTag::Error, None, Some("handle is NULL".to_owned())),
        Some(h) => {
            let (tag, json, err) = h.run();
            (tag, Some(json), err)
        },
    }
}

/// Starts the script of a handle.
pub fn monty_start(handle: Option<&mut MontyHandle>) -> (r: (MontyProgressTag, Option<String>))
    ensures
        match handle {
            None => r.0 == MontyProgressTag::Error && optional_text(r.1) == Some(no_handle()),
            Some(h) => start_outcome((*h)@, (*final(h))@, r.0, optional_text(r.1)),
        },
{
    match handle {
        None => (MontyProgressTag::Error, Some("handle is NULL".to_owned())),
        Some(h) => h.start(),
    }
}

/// Answers the pending call of a handle with a value given as JSON text.
pub fn monty_resume(handle: Option<&mut MontyHandle>, value_json: Option<&[u8]>) -> (r: (
    MontyProgressTag,
    Option<String>,
))
    ensures
        match handle {
            None => r.0 == MontyProgressTag::Error && optional_text(r.1) == Some(no_handle()),
            Some(h) => match text_argument(optional_bytes(value_json), "value_json"@) {
                Err(e) => refused((*h)@, (*final(h))@, r.0, optional_text(r.1), e),
                Ok(text) => resume_outcome(text, (*h)@, (*final(h))@, r.0, optional_text(r.1)),
            },
        },
{
    match handle {
        None => (MontyProgressTag::Error, Some("handle is NULL".to_owned())),
        Some(h) => match parse_c_str(value_json, "value_json") {
            Err(e) => (MontyProgressTag::Error, Some(e)),
            Ok(text) => h.resume(text.as_str()),
        },
    }
}

/// Answers the pending call of a handle with an error of the host.
pub fn monty_resume_with_error(handle: Option<&mut MontyHandle>, error_message: Option<&[u8]>) -> (r: (
    MontyProgressTag,
    Option<String>,
))
    ensures
        match handle {
            None => r.0 == MontyProgressTag::Error && optional_text(r.1) == Some(no_handle()),
            Some(h) => match text_argument(optional_bytes(error_message), "error_message"@) {
                Err(e) => refused((*h)@, (*final(h))@, r.0, optional_text(r.1), e),
                Ok(_) => answer_outcome((*h)@, (*final(h))@, r.0, optional_text(r.1)),
            },
        },
{
    match handle {
        None => (MontyProgressTag::Error, Some("handle is NULL".to_owned())),
        Some(h) => match parse_c_str(error_message, "error_message") {
            Err(e) => (MontyProgressTag::Error, Some(e)),
            Ok(text) => h.resume_with_error(text.as_str()),
        },
    }
}

/// Turns the pending call of a handle into a future.
pub fn monty_resume_as_future(handle: Option<&mut MontyHandle>) -> (r: (MontyProgressTag, Option<String>))
    ensures
        match handle {
            None => r.0 == MontyProgressTag::Error && optional_text(r.1) == Some(no_handle()),
            Some(h) => answer_outcome((*h)@, (*final(h))@, r.0, optional_text(r.1)),
        },
{
    match handle {
        None => (MontyProgressTag::Error, Some("handle is NULL".to_owned())),
        Some(h) => h.resume_as_future(),
    }
}

/// What resolving outstanding calls gives once a handle is there: the
/// message for the first of the two texts that cannot be read, the results
/// first; else what the handle makes of them.
pub open spec fn resolve_outcome(
    results_json: Option<Seq<u8>>,
    errors_json: Option<Seq<u8>>,
    pre: HandleModel,
    post: HandleModel,
    tag: MontyProgressTag,
    message: Option<Seq<char>>,
) -> bool {
    if results_json is None {
        refused(pre, post, tag, message, "results_json is NULL"@)
    } else if errors_json is None {
        refused(pre, post, tag, message, "errors_json is NULL"@)
    } else if !valid_utf8(results_json->Some_0) {
        refused(pre, post, tag, message, "results_json is not valid UTF-8"@)
    } else if !valid_utf8(errors_json->Some_0) {
        refused(pre, post, tag, message, "errors_json is not valid UTF-8"@)
    } else {
        futures_outcome(
            decode_utf8(results_json->Some_0),
            decode_utf8(errors_json->Some_0),
            pre,
            post,
            tag,
            message,
        )
    }
}

/// Resolves outstanding calls of a handle with results and errors, each the
/// text of a JSON object keyed by call identifier.
pub fn monty_resume_futures(
    handle: Option<&mut MontyHandle>,
    results_json: Option<&[u8]>,
    errors_json: Option<&[u8]>,
) -> (r: (MontyProgressTag, Option<String>))
    ensures
        match handle {
            None => r.0 == MontyProgressTag::Error && optional_text(r.1) == Some(no_handle()),
            Some(h) => resolve_outcome(
                optional_bytes(results_json),
                optional_bytes(errors_json),
                (*h)@,
                (*final(h))@,
                r.0,
                optional_text(r.1),
            ),
        },
{
    match handle {
        None => (MontyProgressTag::Error, Some("handle is NULL".to_owned())),
        Some(h) => {
            if results_json.is_none() {
                return (MontyProgressTag::Error, Some("results_json is NULL".to_owned()));
            }
            if errors_json.is_none() {
                return (MontyProgressTag::Error, Some("errors_json is NULL".to_owned()));
            }
            let results = match parse_c_str(results_json, "results_json") {
                Ok(text) => text,
                Err(_) => {
                    return (MontyProgressTag::Error, Some("results_json is not valid UTF-8".to_owned()));
                },
            };
            let errors = match parse_c_str(errors_json, "errors_json") {
                Ok(text) => text,
                Err(_) => {
                    return (MontyProgressTag::Error, Some("errors_json is not valid UTF-8".to_owned()));
                },
            };
            h.resume_futures(results.as_str(), errors.as_str())
        },
    }
}

/// The identifiers of the outstanding calls of a handle as the text of a
/// JSON array; absent unless a handle was given and awaits futures.
pub fn monty_pending_future_call_ids(handle: Option<&MontyHandle>) -> (r: Option<String>)
    ensures
        optional_text(r) == match handle {
            Some(h) => match h@.state {
                StateModel::AwaitingFutures(ids) => Some(ids),
                _ => None,
            },
            None => None,
        },
{
    match handle {
        None => None,
        Some(h) => owned(h.pending_future_call_ids()),
    }
}

/// The name of the pending function; absent unless a handle was given and
/// is paused.
pub fn monty_pending_fn_name(handle: Option<&MontyHandle>) -> (r: Option<String>)
    ensures
        optional_text(r) == match pending_call(handle) {
            Some(p) => Some(p.fn_name),
            None => None,
        },
{
    match handle {
        None => None,
        Some(h) => owned(h.pending_fn_name()),
    }
}

/// The positional arguments of the pending call as the text of a JSON
/// array; absent unless a handle was given and is paused.
pub fn monty_pending_fn_args_json(handle: Option<&MontyHandle>) -> (r: Option<String>)
    ensures
        optional_text(r) == match pending_call(handle) {
            Some(p) => Some(p.args_json),
            None => None,
        },
{
    match handle {
        None => None,
        Some(h) => owned(h.pending_fn_args_json()),
    }
}

/// The keyword arguments of the pending call as the text of a JSON object;
/// absent unless a handle was given and is paused.
pub fn monty_pending_fn_kwargs_json(handle: Option<&MontyHandle>) -> (r: Option<String>)
    ensures
        optional_text(r) == match pending_call(handle) {
            Some(p) => Some(p.kwargs_json),
            None => None,
        },
{
    match handle {
        None => None,
        Some(h) => owned(h.pending_fn_kwargs_json()),
    }
}

/// The identifier of the pending call; the largest `u32` unless a handle
/// was given and is paused.
pub fn monty_pending_call_id(handle: Option<&MontyHandle>) -> (r: u32)
    ensures
        r == match pending_call(handle) {
            Some(p) => p.call_id,
            None => u32::MAX,
        },
{
    match handle {
        None => u32::MAX,
        Some(h) => match h.pending_call_id() {
            Some(id) => id,
            None => u32::MAX,
        },
    }
}

/// Whether the pending call is a method call: 1 for yes, 0 for no, -1
/// unless a handle was given and is paused.
pub fn monty_pending_method_call(handle: Option<&MontyHandle>) -> (r: i32)
    ensures
        r == flag_code(
            match pending_call(handle) {
                Some(p) => Some(p.method_call),
                None => None,
            },
        ),
{
    match handle {
        None => -1,
        Some(h) => match h.pending_method_call() {
            Some(true) => 1,
            Some(false) => 0,
            None => -1,
        },
    }
}

/// The text of the result report; absent unless a handle was given and is
/// complete.
pub fn monty_complete_result_json(handle: Option<&MontyHandle>) -> (r: Option<String>)
    ensures
        optional_text(r) == match completed(handle) {
            Some(c) => Some(c.0),
            None => None,
        },
{
    match handle {
        None => None,
        Some(h) => owned(h.complete_result_json()),
    }
}

/// Whether the result is an error: 1 for yes, 0 for no, -1 unless a handle
/// was given and is complete.
pub fn monty_complete_is_error(handle: Option<&MontyHandle>) -> (r: i32)
    ensures
        r == flag_code(
            match completed(handle) {
                Some(c) => Some(c.1),
                None => None,
            },
        ),
{
    match handle {
        None => -1,
        Some(h) => match h.complete_is_error() {
            Some(true) => 1,
            Some(false) => 0,
            None => -1,
        },
    }
}

/// Serializes the compiled script of a handle.  Gives nothing where no
/// handle was given, where the handle is not ready, and where the
/// serializer fails.  Bytes that are given are a snapshot with the names of
/// the handle's host functions.
pub fn monty_snapshot(handle: Option<&MontyHandle>) -> (r: Option<Vec<u8>>)
    ensures
        r matches Some(bytes) ==> (handle matches Some(h) && h@.state is Ready && snapshot_functions(bytes@)
            == Some(h@.external_functions)),
{
    match handle {
        None => None,
        Some(h) => match h.snapshot() {
            Ok(bytes) => Some(bytes),
            Err(_) => None,
        },
    }
}

/// Makes a handle from the bytes of a snapshot.
pub fn monty_restore(data: Option<&[u8]>) -> (r: Result<MontyHandle, String>)
    ensures
        match data {
            None => r matches Err(e) && e@ == "data is NULL"@,
            Some(bytes) => restore_outcome(bytes@, r),
        },
{
    match data {
        None => Err("data is NULL".to_owned()),
        Some(bytes) => MontyHandle::restore(bytes),
    }
}

/// Sets the memory ceiling of a handle in bytes, where one was given.
pub fn monty_set_memory_limit(handle: Option<&mut MontyHandle>, bytes: usize)
    ensures
        handle matches Some(h) ==> (*final(h))@ == with_limits(
            (*h)@,
            Limits { max_memory: Some(bytes), ..limits_or_none((*h)@.limits) },
        ),
{
    match handle {
        None => {},
        Some(h) => h.set_memory_limit(bytes),
    }
}

/// Sets the time ceiling of a handle in milliseconds, where one was given.
pub fn monty_set_time_limit_ms(handle: Option<&mut MontyHandle>, ms: u64)
    ensures
        handle matches Some(h) ==> (*final(h))@ == with_limits(
            (*h)@,
            Limits { max_duration_ms: Some(ms), ..limits_or_none((*h)@.limits) },
        ),
{
    match handle {
        None => {},
        Some(h) => h.set_time_limit_ms(ms),
    }
}

/// Sets the ceiling on the depth of the call stack of a handle, where one
/// was given.
pub fn monty_set_stack_limit(handle: Option<&mut MontyHandle>, depth: usize)
    ensures
        handle matches Some(h) ==> (*final(h))@ == with_limits(
            (*h)@,
            Limits { max_recursion_depth: Some(depth), ..limits_or_none((*h)@.limits) },
        ),
{
    match handle {
        None => {},
        Some(h) => h.set_stack_limit(depth),
    }
}

} // verus!
