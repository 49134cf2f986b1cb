//! Reports in JSON text: the result of an execution and the pending call.

use vstd::prelude::*;
use crate::convert::{encode, encode_items, monty_object_to_json};
use crate::engine::PendingCall;
use crate::json::{json_parse, json_text, members_view, parse, to_text, Json, JsonModel, JsonNumber};
use crate::value::{values_view, EngineModel, EngineValue};

verus! {

/// What a host needs to serve a pending call.
#[derive(Debug, PartialEq, Eq)]
pub struct PendingMeta {
    pub fn_name: String,
    /// The positional arguments as the text of a JSON array.
    pub args_json: String,
    /// The keyword arguments as the text of a JSON object.
    pub kwargs_json: String,
    pub call_id: u32,
    pub method_call: bool,
}

/// The mathematical model of a [`PendingMeta`].
pub struct PendingModel {
    pub fn_name: Seq<char>,
    pub args_json: Seq<char>,
    pub kwargs_json: Seq<char>,
    pub call_id: u32,
    pub method_call: bool,
}

impl View for PendingMeta {
    type V = PendingModel;

    open spec fn view(&self) -> PendingModel {
        PendingModel {
            fn_name: self.fn_name@,
            args_json: self.args_json@,
            kwargs_json: self.kwargs_json@,
            call_id: self.call_id,
            method_call: self.method_call,
        }
    }
}

/// The usage report of a handle that has recorded no resource use.
pub open spec fn default_usage_text() -> Seq<char> {
    "{\"memory_bytes_used\":0,\"time_elapsed_ms\":0,\"stack_depth_used\":0}"@
}

/// The same report as a structured value.
pub open spec fn default_usage_value() -> JsonModel {
    JsonModel::Object(
        seq![
            ("memory_bytes_used"@, JsonModel::Number(JsonNumber::Int(0))),
            ("time_elapsed_ms"@, JsonModel::Number(JsonNumber::Int(0))),
            ("stack_depth_used"@, JsonModel::Number(JsonNumber::Int(0))),
        ],
    )
}

/// The structured value of a usage report given as text; the report of no
/// use where the text cannot be read.
pub open spec fn usage_value(usage_json: Seq<char>) -> JsonModel {
    match json_parse(usage_json) {
        Ok(j) => j,
        Err(_) => default_usage_value(),
    }
}

/// The envelope of a result: the value, the usage, the error where there is
/// one, and what was printed where anything was.
pub open spec fn envelope(
    value: JsonModel,
    error: Option<JsonModel>,
    usage: JsonModel,
    print_output: Seq<char>,
) -> JsonModel {
    JsonModel::Object(
        seq![("value"@, value), ("usage"@, usage)] + (match error {
            Some(e) => seq![("error"@, e)],
            None => seq![],
        }) + (if print_output.len() > 0 {
            seq![("print_output"@, JsonModel::Text(print_output))]
        } else {
            seq![]
        }),
    )
}

/// A text where there is one, else the fallback.
pub open spec fn text_or(text: Option<Seq<char>>, fallback: Seq<char>) -> Seq<char> {
    match text {
        Some(t) => t,
        None => fallback,
    }
}

/// The text of a result report.
pub open spec fn result_text(
    value: JsonModel,
    error: Option<JsonModel>,
    usage_json: Seq<char>,
    print_output: Seq<char>,
) -> Seq<char> {
    text_or(json_text(envelope(value, error, usage_value(usage_json), print_output)), Seq::empty())
}

/// The model of an optional structured value.
pub open spec fn optional_json(j: Option<Json>) -> Option<JsonModel> {
    match j {
        Some(v) => Some(v@),
        None => None,
    }
}

/// Returns the usage report of a handle that has recorded no resource use.
pub fn default_usage_json() -> (s: String)
    ensures
        s@ == default_usage_text(),
{
    "{\"memory_bytes_used\":0,\"time_elapsed_ms\":0,\"stack_depth_used\":0}".to_owned()
}

/// Makes a member that holds the number zero.
fn zero_member(name: &str) -> (m: (String, Json))
    ensures
        m.0@ == name@,
        m.1@ == JsonModel::Number(JsonNumber::Int(0)),
{
    (name.to_owned(), Json::Number(JsonNumber::Int(0)))
}

/// Reads a usage report; gives the report of no use where it cannot be read.
fn read_usage(usage_json: &str) -> (j: Json)
    ensures
        j@ == usage_value(usage_json@),
{
    match parse(usage_json) {
        Ok(j) => j,
        Err(_) => {
            let mut members: Vec<(String, Json)> = Vec::new();
            members.push(zero_member("memory_bytes_used"));
            members.push(zero_member("time_elapsed_ms"));
            members.push(zero_member("stack_depth_used"));
            let j = Json::Object(members);
            assert(j@->Object_0 =~= default_usage_value()->Object_0);
            j
        },
    }
}

/// Writes the envelope of a result as text.
fn write_envelope(value: Json, error: Option<Json>, usage: Json, print_output: &str) -> (s: String)
    ensures
        s@ == text_or(
            json_text(envelope(value@, optional_json(error), usage@, print_output@)),
            Seq::empty(),
        ),
{
    let ghost value_model = value@;
    let ghost error_model = optional_json(error);
    let ghost head = seq![("value"@, value_model), ("usage"@, usage@)];
    let ghost error_part = match error_model {
        Some(e) => seq![("error"@, e)],
        None => seq![],
    };
    let mut members: Vec<(String, Json)> = Vec::new();
    members.push(("value".to_owned(), value));
    members.push(("usage".to_owned(), usage));
    assert(members_view(members@) =~= head);
    match error {
        Some(e) => {
            members.push(("error".to_owned(), e));
        },
        None => {},
    }
    assert(members_view(members@) =~= head + error_part);
    if !print_output.is_empty() {
        members.push(("print_output".to_owned(), Json::String(print_output.to_owned())));
        assert(members_view(members@) =~= head + error_part + seq![
            ("print_output"@, JsonModel::Text(print_output@)),
        ]);
    }
    let result = Json::Object(members);
    match to_text(&result) {
        Some(s) => s,
        None => String::new(),
    }
}

/// Builds the text of a result report over a usage report given as text.
pub fn build_result_json(value: Json, error: Option<Json>, usage_json: &str, print_output: &str) -> (s: String)
    ensures
        s@ == result_text(value@, optional_json(error), usage_json@, print_output@),
{
    let usage = read_usage(usage_json);
    write_envelope(value, error, usage, print_output)
}

/// What an execution has used so far.  The engine gives no reading of the
/// depth of the call stack, which therefore stays at zero.
#[derive(Debug, Clone, Copy, PartialEq, Eq)]
pub struct Usage {
    /// The most memory in bytes that was found in use after a step.
    pub memory_bytes_used: u64,
    /// The time in milliseconds that the steps took, all together.
    pub time_elapsed_ms: u64,
    /// The depth of the call stack.
    pub stack_depth_used: u64,
}

/// The usage of an execution that has not begun.
pub open spec fn no_usage() -> Usage {
    Usage { memory_bytes_used: 0, time_elapsed_ms: 0, stack_depth_used: 0 }
}

/// The usage after a step that took the given time and after which the given
/// memory was found in use: the times add up, short of overflow, and the
/// memory is the most that was found.
pub open spec fn usage_after(before: Usage, elapsed_ms: u64, memory_bytes: u64) -> Usage {
    Usage {
        memory_bytes_used: if memory_bytes > before.memory_bytes_used {
            memory_bytes
        } else {
            before.memory_bytes_used
        },
        time_elapsed_ms: if before.time_elapsed_ms + elapsed_ms > u64::MAX {
            u64::MAX
        } else {
            (before.time_elapsed_ms + elapsed_ms) as u64
        },
        stack_depth_used: before.stack_depth_used,
    }
}

/// The milliseconds of a step as a counter: their number, or the largest
/// counter where they do not fit.
pub open spec fn counted_ms(millis: u128) -> u64 {
    if millis > u64::MAX {
        u64::MAX
    } else {
        millis as u64
    }
}

/// The memory in use by an execution, given the engine's count of the bytes
/// now in use and its count from before any execution: what the first is
/// above the second.
pub open spec fn memory_in_use(live: usize, baseline: usize) -> u64 {
    if live > baseline {
        (live - baseline) as u64
    } else {
        0
    }
}

/// Gives the milliseconds of a step as a counter.
pub fn count_ms(millis: u128) -> (r: u64)
    ensures
        r == counted_ms(millis),
{
    if millis > 0xffff_ffff_ffff_ffff {
        u64::MAX
    } else {
        millis as u64
    }
}

/// Gives the memory in use by an execution from the engine's two counts.
pub fn count_memory(live: usize, baseline: usize) -> (r: u64)
    ensures
        r == memory_in_use(live, baseline),
{
    if live > baseline {
        (live - baseline) as u64
    } else {
        0
    }
}

/// Whether usage has only grown: no counter is lower than it was.
pub open spec fn usage_grew(before: Usage, after: Usage) -> bool {
    &&& before.memory_bytes_used <= after.memory_bytes_used
    &&& before.time_elapsed_ms <= after.time_elapsed_ms
    &&& before.stack_depth_used <= after.stack_depth_used
}

/// The structured form of a counter: the number, or the largest number of
/// the transport where it is larger.
pub open spec fn counter(n: u64) -> JsonModel {
    JsonModel::Number(
        JsonNumber::Int(
            if n > i64::MAX {
                i64::MAX
            } else {
                n as i64
            },
        ),
    )
}

/// The structured form of a usage report.
pub open spec fn usage_object(usage: Usage) -> JsonModel {
    JsonModel::Object(
        seq![
            ("memory_bytes_used"@, counter(usage.memory_bytes_used)),
            ("time_elapsed_ms"@, counter(usage.time_elapsed_ms)),
            ("stack_depth_used"@, counter(usage.stack_depth_used)),
        ],
    )
}

/// The text of the result report of an execution: the envelope over the
/// value, the error where there is one, the usage, and what was printed.
pub open spec fn report_text(
    value: JsonModel,
    error: Option<JsonModel>,
    usage: Usage,
    print_output: Seq<char>,
) -> Seq<char> {
    text_or(json_text(envelope(value, error, usage_object(usage), print_output)), Seq::empty())
}

/// Makes a member that holds a counter.
fn counter_member(name: &str, n: u64) -> (m: (String, Json))
    ensures
        m.0@ == name@,
        m.1@ == counter(n),
{
    let shown: i64 = if n > 0x7fff_ffff_ffff_ffff {
        0x7fff_ffff_ffff_ffff
    } else {
        n as i64
    };
    (name.to_owned(), Json::Number(JsonNumber::Int(shown)))
}

/// Encodes a usage report.
pub fn usage_to_json(usage: &Usage) -> (j: Json)
    ensures
        j@ == usage_object(*usage),
{
    let mut members: Vec<(String, Json)> = Vec::new();
    members.push(counter_member("memory_bytes_used", usage.memory_bytes_used));
    members.push(counter_member("time_elapsed_ms", usage.time_elapsed_ms));
    members.push(counter_member("stack_depth_used", usage.stack_depth_used));
    let j = Json::Object(members);
    assert(j@->Object_0 =~= usage_object(*usage)->Object_0);
    j
}

/// Builds the text of the result report of an execution.
pub fn build_report(value: Json, error: Option<Json>, usage: &Usage, print_output: &str) -> (s: String)
    ensures
        s@ == report_text(value@, optional_json(error), *usage, print_output@),
{
    write_envelope(value, error, usage_to_json(usage), print_output)
}

/// The models of keyword arguments, argument by argument.
pub open spec fn keywords_view(kwargs: Seq<(String, EngineValue)>) -> Seq<(Seq<char>, EngineModel)> {
    Seq::new(kwargs.len(), |i: int| (kwargs[i].0@, kwargs[i].1@))
}

/// The members of the object that stands for keyword arguments.
pub open spec fn keyword_members(kwargs: Seq<(Seq<char>, EngineModel)>) -> Seq<(Seq<char>, JsonModel)> {
    Seq::new(kwargs.len(), |i: int| (kwargs[i].0, encode(kwargs[i].1)))
}

/// The text of the positional arguments of a call: a JSON array.
pub open spec fn args_text(args: Seq<EngineModel>) -> Seq<char> {
    text_or(json_text(JsonModel::Array(encode_items(args))), "[]"@)
}

/// The text of the keyword arguments of a call: a JSON object, `{}` where
/// there are none.
pub open spec fn kwargs_text(kwargs: Seq<(Seq<char>, EngineModel)>) -> Seq<char> {
    if kwargs.len() == 0 {
        "{}"@
    } else {
        text_or(json_text(JsonModel::Object(keyword_members(kwargs))), "{}"@)
    }
}

/// What a host is told of a call.
pub open spec fn pending_model(
    function_name: Seq<char>,
    args: Seq<EngineModel>,
    kwargs: Seq<(Seq<char>, EngineModel)>,
    call_id: u32,
    method_call: bool,
) -> PendingModel {
    PendingModel {
        fn_name: function_name,
        args_json: args_text(args),
        kwargs_json: kwargs_text(kwargs),
        call_id,
        method_call,
    }
}

/// What a host is told of a suspended call.
pub open spec fn call_model(call: PendingCall) -> PendingModel {
    pending_model(
        call.function_name@,
        values_view(call.args@),
        keywords_view(call.kwargs@),
        call.call_id,
        call.method_call,
    )
}

/// Builds what a host is told of a call.
pub fn build_pending_meta(
    function_name: String,
    args: &Vec<EngineValue>,
    kwargs: &Vec<(String, EngineValue)>,
    call_id: u32,
    method_call: bool,
) -> (meta: PendingMeta)
    ensures
        meta@ == pending_model(function_name@, values_view(args@), keywords_view(kwargs@), call_id, method_call),
{
    let mut items: Vec<Json> = Vec::new();
    let mut i: usize = 0;
    while i < args.len()
        invariant
            i <= args.len(),
            items.len() == i,
            forall|k: int| 0 <= k < i ==> (#[trigger] items@[k])@ == encode(args@[k]@),
        decreases args.len() - i,
    {
        items.push(monty_object_to_json(&args[i]));
        i += 1;
    }
    let list = Json::Array(items);
    assert(list@->Array_0 =~= encode_items(values_view(args@)));
    let args_json = match to_text(&list) {
        Some(s) => s,
        None => "[]".to_owned(),
    };
    let kwargs_json = if kwargs.len() == 0 {
        "{}".to_owned()
    } else {
        let mut members: Vec<(String, Json)> = Vec::new();
        let mut i: usize = 0;
        while i < kwargs.len()
            invariant
                i <= kwargs.len(),
                members.len() == i,
                forall|k: int| 0 <= k < i ==> (#[trigger] members@[k]).0@ == kwargs@[k].0@,
                forall|k: int| 0 <= k < i ==> (#[trigger] members@[k]).1@ == encode(kwargs@[k].1@),
            decreases kwargs.len() - i,
        {
            members.push((kwargs[i].0.clone(), monty_object_to_json(&kwargs[i].1)));
            i += 1;
        }
        let object = Json::Object(members);
        assert(object@->Object_0 =~= keyword_members(keywords_view(kwargs@)));
        match to_text(&object) {
            Some(s) => s,
            None => "{}".to_owned(),
        }
    };
    PendingMeta { fn_name: function_name, args_json, kwargs_json, call_id, method_call }
}

/// The structured forms of call identifiers.
pub open spec fn id_items(ids: Seq<u32>) -> Seq<JsonModel> {
    Seq::new(ids.len(), |i: int| JsonModel::Number(JsonNumber::Int(ids[i] as i64)))
}

/// The text of outstanding call identifiers: a JSON array of numbers.
pub open spec fn ids_text(ids: Seq<u32>) -> Seq<char> {
    text_or(json_text(JsonModel::Array(id_items(ids))), "[]"@)
}

/// Writes call identifiers as the text of a JSON array.
pub(crate) fn ids_to_text(ids: &Vec<u32>) -> (s: String)
    ensures
        s@ == ids_text(ids@),
{
    let mut items: Vec<Json> = Vec::new();
    let mut i: usize = 0;
    while i < ids.len()
        invariant
            i <= ids.len(),
            items.len() == i,
            forall|k: int| 0 <= k < i ==> (#[trigger] items@[k])@ == JsonModel::Number(
                JsonNumber::Int(ids@[k] as i64),
            ),
        decreases ids.len() - i,
    {
        let id: u32 = ids[i];
        items.push(Json::Number(JsonNumber::Int(id as i64)));
        i += 1;
    }
    let list = Json::Array(items);
    assert(list@->Array_0 =~= id_items(ids@));
    match to_text(&list) {
        Some(s) => s,
        None => "[]".to_owned(),
    }
}

} // verus!
