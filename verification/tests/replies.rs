use dart_monty_native::engine::Reply;
use dart_monty_native::replies::{read_replies, read_reply};
use dart_monty_native::tags::{MontyProgressTag, MontyResultTag};
use dart_monty_native::value::EngineValue;

fn returned(reply: &Reply) -> &EngineValue {
    match reply {
        Reply::Return(value) => value,
        _ => panic!("expected a returned value"),
    }
}

fn failed(reply: &Reply) -> &str {
    match reply {
        Reply::Error(_, message) => message,
        _ => panic!("expected an error"),
    }
}

#[test]
fn a_reply_is_the_decoded_value() {
    let reply = read_reply("{\"b\": [1, null], \"a\": 2.5}").ok().unwrap();
    assert_eq!(
        returned(&reply),
        &EngineValue::Dict(vec![
            (EngineValue::String("a".into()), EngineValue::Float(2.5f64.to_bits())),
            (
                EngineValue::String("b".into()),
                EngineValue::List(vec![EngineValue::Int(1), EngineValue::Null])
            ),
        ])
    );
    assert_eq!(returned(&read_reply("-7").ok().unwrap()), &EngineValue::Int(-7));
    assert_eq!(returned(&read_reply("9223372036854775807").ok().unwrap()), &EngineValue::Int(i64::MAX));
    assert_eq!(
        returned(&read_reply("9223372036854775808").ok().unwrap()),
        &EngineValue::Float(9223372036854775808f64.to_bits())
    );
    assert_eq!(returned(&read_reply("1e2").ok().unwrap()), &EngineValue::Float(100f64.to_bits()));
}

#[test]
fn a_reply_that_cannot_be_read_is_refused_with_the_readers_message() {
    let message = read_reply("[1,").err().unwrap();
    let cause = serde_json::from_str::<serde_json::Value>("[1,").unwrap_err().to_string();
    assert_eq!(message, format!("invalid JSON: {cause}"));
    assert!(read_reply("").is_err());
    assert!(read_reply("1e999").is_err());
}

#[test]
fn replies_are_the_results_then_the_errors() {
    let replies = read_replies("{\"2\": [true], \"10\": \"x\"}", "{\"+3\": \"boom\", \"4\": {\"no\": 1}}").ok().unwrap();
    let ids: Vec<u32> = replies.iter().map(|(id, _)| *id).collect();
    assert_eq!(ids, vec![10, 2, 3, 4]);
    assert_eq!(returned(&replies[0].1), &EngineValue::String("x".into()));
    assert_eq!(returned(&replies[1].1), &EngineValue::List(vec![EngineValue::Bool(true)]));
    assert_eq!(failed(&replies[2].1), "boom");
    assert_eq!(failed(&replies[3].1), "unknown error");
    assert!(read_replies("{}", "{}").ok().unwrap().is_empty());
}

#[test]
fn replies_that_cannot_be_read_are_refused() {
    let cause = |text: &str| {
        serde_json::from_str::<serde_json::Map<String, serde_json::Value>>(text).unwrap_err().to_string()
    };
    assert_eq!(read_replies("7", "also bad").err().unwrap(), format!("invalid results JSON: {}", cause("7")));
    assert_eq!(read_replies("{}", "[]").err().unwrap(), format!("invalid errors JSON: {}", cause("[]")));
    assert_eq!(read_replies("{\"1\": 0, \"a\": 0}", "{\"b\": 0}").err().unwrap(), "invalid call_id: a");
    assert_eq!(read_replies("{\"1\": 0}", "{\"2\": 0, \"\": 0}").err().unwrap(), "invalid call_id: ");
    assert_eq!(read_replies("{\"1.0\": 0}", "{}").err().unwrap(), "invalid call_id: 1.0");
}

#[test]
fn tags_have_their_codes() {
    assert_eq!(MontyResultTag::Success.code(), 0);
    assert_eq!(MontyResultTag::Error.code(), 1);
    assert_eq!(MontyProgressTag::Complete.code(), 0);
    assert_eq!(MontyProgressTag::Pending.code(), 1);
    assert_eq!(MontyProgressTag::Error.code(), 2);
    assert_eq!(MontyProgressTag::ResolveFutures.code(), 3);
}
