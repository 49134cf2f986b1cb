//! The answers of the host to calls of the script, read from JSON text.

use vstd::prelude::*;
use crate::callid::{key_id, parse_call_id};
use crate::convert::{decode, json_to_monty_object};
use crate::engine::{ErrorKind, Reply, ReplyModel};
use crate::json::{json_parse, json_parse_object, members_view, parse, parse_object, Json, JsonModel};

verus! {

/// The first key, in order, that denotes no call identifier.
pub open spec fn invalid_key(members: Seq<(Seq<char>, JsonModel)>) -> Option<Seq<char>>
    decreases members.len(),
{
    if members.len() == 0 {
        None
    } else if key_id(members[0].0) is None {
        Some(members[0].0)
    } else {
        invalid_key(members.drop_first())
    }
}

/// Where the first keys all denote call identifiers, the first key that
/// denotes none is found among the rest.
proof fn lemma_invalid_key_skips(members: Seq<(Seq<char>, JsonModel)>, i: int)
    requires
        0 <= i <= members.len(),
        forall|k: int| 0 <= k < i ==> key_id((#[trigger] members[k]).0) is Some,
    ensures
        invalid_key(members) == invalid_key(members.skip(i)),
    decreases i,
{
    if i == 0 {
        assert(members.skip(0) =~= members);
    } else {
        assert(key_id(members[0].0) is Some);
        let rest = members.drop_first();
        assert forall|k: int| 0 <= k < i - 1 implies key_id((#[trigger] rest[k]).0) is Some by {
            assert(rest[k] == members[k + 1]);
        }
        lemma_invalid_key_skips(rest, i - 1);
        assert(rest.skip(i - 1) =~= members.skip(i));
    }
}

/// Why the answers to outstanding calls are refused before the handle is
/// looked at, if they are: the results cannot be read as an object, else the
/// errors cannot, else a key of the results or, after them, of the errors
/// denotes no call identifier.
pub open spec fn futures_refusal(results_json: Seq<char>, errors_json: Seq<char>) -> Option<Seq<char>> {
    match json_parse_object(results_json) {
        Err(e) => Some("invalid results JSON: "@ + e),
        Ok(results) => match json_parse_object(errors_json) {
            Err(e) => Some("invalid errors JSON: "@ + e),
            Ok(errors) => match invalid_key(results + errors) {
                Some(key) => Some("invalid call_id: "@ + key),
                None => None,
            },
        },
    }
}

/// The models of the answers to calls, answer by answer.
pub open spec fn replies_view(replies: Seq<(u32, Reply)>) -> Seq<(u32, ReplyModel)> {
    replies.map_values(|r: (u32, Reply)| (r.0, r.1@))
}

/// The answers that the members of a results object stand for: each key is
/// a call identifier, each value what the call returned.
pub open spec fn result_replies(results: Seq<(Seq<char>, JsonModel)>) -> Seq<(u32, ReplyModel)> {
    results.map_values(
        |m: (Seq<char>, JsonModel)| (key_id(m.0).unwrap(), ReplyModel::Return(decode(m.1))),
    )
}

/// The answer that a call failed with a message: the failure is raised in
/// the script as a runtime error with the message.
pub open spec fn error_answer(message: Seq<char>) -> ReplyModel {
    ReplyModel::Error(ErrorKind::Runtime, message)
}

/// The message that a member of an errors object holds: its text, or
/// `unknown error` where it is no text.
pub open spec fn error_message(value: JsonModel) -> Seq<char> {
    match value {
        JsonModel::Text(s) => s,
        _ => "unknown error"@,
    }
}

/// The answers that the members of an errors object stand for: each key is
/// a call identifier, each value the message with which the call failed.
pub open spec fn error_replies(errors: Seq<(Seq<char>, JsonModel)>) -> Seq<(u32, ReplyModel)> {
    errors.map_values(
        |m: (Seq<char>, JsonModel)| (key_id(m.0).unwrap(), error_answer(error_message(m.1))),
    )
}

/// What reading the answer to one call gives: the value that the text
/// stands for, or the reader's message.
pub open spec fn reply_outcome(value_json: Seq<char>) -> Result<ReplyModel, Seq<char>> {
    match json_parse(value_json) {
        Ok(j) => Ok(ReplyModel::Return(decode(j))),
        Err(e) => Err("invalid JSON: "@ + e),
    }
}

/// What reading the answers to outstanding calls gives: the reason for
/// which they are refused, or the answers, those of the results first.
pub open spec fn replies_outcome(results_json: Seq<char>, errors_json: Seq<char>) -> Result<
    Seq<(u32, ReplyModel)>,
    Seq<char>,
> {
    match futures_refusal(results_json, errors_json) {
        Some(reason) => Err(reason),
        None => Ok(
            result_replies(json_parse_object(results_json)->Ok_0) + error_replies(
                json_parse_object(errors_json)->Ok_0,
            ),
        ),
    }
}

/// The model of the outcome of reading one answer.
pub open spec fn read_reply_view(r: Result<Reply, String>) -> Result<ReplyModel, Seq<char>> {
    match r {
        Ok(reply) => Ok(reply@),
        Err(e) => Err(e@),
    }
}

/// The model of the outcome of reading answers.
pub open spec fn read_replies_view(r: Result<Vec<(u32, Reply)>, String>) -> Result<
    Seq<(u32, ReplyModel)>,
    Seq<char>,
> {
    match r {
        Ok(replies) => Ok(replies_view(replies@)),
        Err(e) => Err(e@),
    }
}

/// Makes the answer that a call failed with a message.
pub fn error_reply(message: &str) -> (r: Reply)
    ensures
        r@ == error_answer(message@),
        r.sendable(),
{
    Reply::Error(ErrorKind::Runtime, message.to_owned())
}

/// Reads the answer to a call from JSON text.
pub fn read_reply(value_json: &str) -> (r: Result<Reply, String>)
    ensures
        read_reply_view(r) == reply_outcome(value_json@),
        r matches Ok(reply) ==> reply.sendable(),
{
    match parse(value_json) {
        Err(e) => {
            let mut message = "invalid JSON: ".to_owned();
            message.append(e.as_str());
            Err(message)
        },
        Ok(val) => Ok(Reply::Return(json_to_monty_object(&val))),
    }
}

/// Reads the answers to outstanding calls from the texts of two JSON
/// objects keyed by call identifier: the results, each a value, and the
/// errors, each a message.
pub fn read_replies(results_json: &str, errors_json: &str) -> (r: Result<Vec<(u32, Reply)>, String>)
    ensures
        read_replies_view(r) == replies_outcome(results_json@, errors_json@),
        r matches Ok(replies) ==> forall|k: int| 0 <= k < replies.len() ==> (#[trigger] replies@[k]).1.sendable(),
{
    let results_map = match parse_object(results_json) {
        Ok(members) => members,
        Err(e) => {
            let mut message = "invalid results JSON: ".to_owned();
            message.append(e.as_str());
            return Err(message);
        },
    };
    let errors_map = match parse_object(errors_json) {
        Ok(members) => members,
        Err(e) => {
            let mut message = "invalid errors JSON: ".to_owned();
            message.append(e.as_str());
            return Err(message);
        },
    };
    let ghost results = members_view(results_map@);
    let ghost errors = members_view(errors_map@);
    let ghost all = results + errors;
    let mut replies: Vec<(u32, Reply)> = Vec::new();
    let mut i: usize = 0;
    assert(replies_view(replies@) =~= result_replies(results.take(0)));
    while i < results_map.len()
        invariant
            i <= results_map.len(),
            results == members_view(results_map@),
            all == results + errors,
            forall|k: int| 0 <= k < i ==> key_id((#[trigger] all[k]).0) is Some,
            invalid_key(all) is None ==> futures_refusal(results_json@, errors_json@) is None,
            invalid_key(all) matches Some(key) ==> futures_refusal(results_json@, errors_json@) == Some(
                "invalid call_id: "@ + key,
            ),
            replies_view(replies@) == result_replies(results.take(i as int)),
            forall|k: int| 0 <= k < replies.len() ==> (#[trigger] replies@[k]).1.sendable(),
        decreases results_map.len() - i,
    {
        assert(all[i as int] == results[i as int]);
        match parse_call_id(results_map[i].0.as_str()) {
            Some(call_id) => {
                let value = json_to_monty_object(&results_map[i].1);
                let ghost before = replies_view(replies@);
                replies.push((call_id, Reply::Return(value)));
                proof {
                    assert(results.take(i + 1) =~= results.take(i as int).push(results[i as int]));
                    assert(replies_view(replies@) =~= before.push(
                        (call_id, ReplyModel::Return(decode(results[i as int].1))),
                    ));
                    assert(result_replies(results.take(i + 1)) =~= result_replies(results.take(i as int)).push(
                        (call_id, ReplyModel::Return(decode(results[i as int].1))),
                    ));
                }
            },
            None => {
                proof {
                    lemma_invalid_key_skips(all, i as int);
                }
                let mut message = "invalid call_id: ".to_owned();
                message.append(results_map[i].0.as_str());
                return Err(message);
            },
        }
        i += 1;
    }
    assert(results.take(results.len() as int) =~= results);
    assert(errors.take(0) =~= Seq::<(Seq<char>, JsonModel)>::empty());
    assert(replies_view(replies@) =~= result_replies(results) + error_replies(errors.take(0)));
    let mut j: usize = 0;
    while j < errors_map.len()
        invariant
            j <= errors_map.len(),
            results.len() == results_map.len(),
            errors == members_view(errors_map@),
            all == results + errors,
            forall|k: int| 0 <= k < results.len() + j ==> key_id((#[trigger] all[k]).0) is Some,
            invalid_key(all) is None ==> futures_refusal(results_json@, errors_json@) is None,
            invalid_key(all) matches Some(key) ==> futures_refusal(results_json@, errors_json@) == Some(
                "invalid call_id: "@ + key,
            ),
            replies_view(replies@) == result_replies(results) + error_replies(errors.take(j as int)),
            forall|k: int| 0 <= k < replies.len() ==> (#[trigger] replies@[k]).1.sendable(),
        decreases errors_map.len() - j,
    {
        assert(all[results.len() + j] == errors[j as int]);
        match parse_call_id(errors_map[j].0.as_str()) {
            Some(call_id) => {
                let reply = match &errors_map[j].1 {
                    Json::String(s) => error_reply(s.as_str()),
                    _ => error_reply("unknown error"),
                };
                let ghost before = replies_view(replies@);
                replies.push((call_id, reply));
                proof {
                    let added = (call_id, error_answer(error_message(errors[j as int].1)));
                    assert(errors.take(j + 1) =~= errors.take(j as int).push(errors[j as int]));
                    assert(replies_view(replies@) =~= before.push(added));
                    assert(error_replies(errors.take(j + 1)) =~= error_replies(errors.take(j as int)).push(added));
                    assert(before.push(added) =~= result_replies(results) + error_replies(errors.take(j + 1)));
                }
            },
            None => {
                proof {
                    lemma_invalid_key_skips(all, results.len() + j);
                }
                let mut message = "invalid call_id: ".to_owned();
                message.append(errors_map[j].0.as_str());
                return Err(message);
            },
        }
        j += 1;
    }
    proof {
        lemma_invalid_key_skips(all, all.len() as int);
        assert(errors.take(errors.len() as int) =~= errors);
    }
    Ok(replies)
}

} // verus!
