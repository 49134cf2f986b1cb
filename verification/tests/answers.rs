use dart_monty_native::convert::{json_to_monty_object, number_to_monty_object};
use dart_monty_native::engine::{ErrorKind, Reply};
use dart_monty_native::error::make_bridge_report;
use dart_monty_native::handle::MontyHandle;
use dart_monty_native::json::{Json, JsonNumber};
use dart_monty_native::replies::{error_reply, read_replies};
use dart_monty_native::report::{count_memory, count_ms};
use dart_monty_native::tags::MontyProgressTag;
use dart_monty_native::text::char_is_whitespace;
use dart_monty_native::value::{large_to_float, EngineValue};
use serde_json::Value;

fn ready(code: &str, functions: &[&str]) -> MontyHandle {
    MontyHandle::new(code.into(), functions.iter().map(|s| s.to_string()).collect(), None).ok().unwrap()
}

fn report(text: &str) -> Value {
    serde_json::from_str(text).unwrap()
}

#[test]
fn a_failure_of_the_host_is_a_runtime_error_with_the_message() {
    match error_reply("no such record") {
        Reply::Error(kind, message) => {
            assert_eq!(kind, ErrorKind::Runtime);
            assert_eq!(message, "no such record");
        },
        _ => panic!("expected an error"),
    }
    match error_reply("") {
        Reply::Error(kind, message) => {
            assert_eq!(kind, ErrorKind::Runtime);
            assert_eq!(message, "");
        },
        _ => panic!("expected an error"),
    }
}

#[test]
fn the_errors_of_outstanding_calls_are_runtime_errors() {
    let replies = read_replies("{}", "{\"4\": \"late\", \"5\": 12}").ok().unwrap();
    assert_eq!(replies.len(), 2);
    match &replies[0] {
        (4, Reply::Error(ErrorKind::Runtime, message)) => assert_eq!(message, "late"),
        _ => panic!("expected the error of call 4"),
    }
    match &replies[1] {
        (5, Reply::Error(ErrorKind::Runtime, message)) => assert_eq!(message, "unknown error"),
        _ => panic!("expected the error of call 5"),
    }
}

#[test]
fn the_script_catches_the_hosts_failure_as_a_runtime_error() {
    let code = "try:\n    fetch()\nexcept RuntimeError as e:\n    out = 'caught ' + str(e)\nout";
    let mut handle = ready(code, &["fetch"]);
    assert_eq!(handle.start(), (MontyProgressTag::Pending, None));
    assert_eq!(handle.resume_with_error("disk full"), (MontyProgressTag::Complete, None));
    assert_eq!(report(handle.complete_result_json().unwrap())["value"], "caught disk full");
}

#[test]
fn a_failure_of_the_host_is_no_other_kind_of_error() {
    let code = "try:\n    fetch()\nexcept ValueError:\n    out = 'caught'\nout";
    let mut handle = ready(code, &["fetch"]);
    assert_eq!(handle.start(), (MontyProgressTag::Pending, None));
    let (tag, message) = handle.resume_with_error("disk full");
    assert_eq!(tag, MontyProgressTag::Error);
    assert_eq!(message.as_deref(), Some("RuntimeError: disk full"));
    let error = &report(handle.complete_result_json().unwrap())["error"];
    assert_eq!(error["exc_type"], "RuntimeError");
}

#[test]
fn white_space_is_what_the_standard_library_calls_white_space() {
    for code in 0..=0x10ffffu32 {
        if let Some(c) = char::from_u32(code) {
            assert_eq!(char_is_whitespace(c), c.is_whitespace(), "U+{code:04X}");
        }
    }
}

#[test]
fn milliseconds_are_counted_up_to_the_largest_counter() {
    assert_eq!(count_ms(0), 0);
    assert_eq!(count_ms(1500), 1500);
    assert_eq!(count_ms(u64::MAX as u128), u64::MAX);
    assert_eq!(count_ms(u64::MAX as u128 + 1), u64::MAX);
    assert_eq!(count_ms(u128::MAX), u64::MAX);
}

#[test]
fn memory_in_use_is_what_is_above_the_baseline() {
    assert_eq!(count_memory(0, 0), 0);
    assert_eq!(count_memory(4096, 1024), 3072);
    assert_eq!(count_memory(1024, 4096), 0);
    assert_eq!(count_memory(usize::MAX, 0), usize::MAX as u64);
}

#[test]
fn a_large_integer_becomes_the_nearest_floating_point_number() {
    let half = 1u64 << 63;
    let cases = [
        half,
        half + 1,
        half + 1023,
        half + 1024,
        half + 1025,
        half + 2048,
        half + 3071,
        half + 3072,
        half + 3073,
        0xffff_ffff_ffff_f7ff,
        0xffff_ffff_ffff_f800,
        0xffff_ffff_ffff_fbff,
        0xffff_ffff_ffff_fc00,
        0xffff_ffff_ffff_fc01,
        u64::MAX - 1,
        u64::MAX,
        12345678901234567890,
    ];
    for n in cases {
        assert_eq!(large_to_float(n), (n as f64).to_bits(), "{n}");
    }
    let mut n = half;
    while n < u64::MAX - 0x0123_4567_89ab {
        assert_eq!(large_to_float(n), (n as f64).to_bits(), "{n}");
        n += 0x0123_4567_89ab;
    }
}

#[test]
fn a_number_is_decoded_by_its_kind() {
    assert_eq!(number_to_monty_object(&JsonNumber::Int(-3)), EngineValue::Int(-3));
    assert_eq!(number_to_monty_object(&JsonNumber::Unsigned(7)), EngineValue::Int(7));
    assert_eq!(
        number_to_monty_object(&JsonNumber::Unsigned(i64::MAX as u64)),
        EngineValue::Int(i64::MAX)
    );
    assert_eq!(
        number_to_monty_object(&JsonNumber::Unsigned(i64::MAX as u64 + 1)),
        EngineValue::Float(9223372036854775808f64.to_bits())
    );
    assert_eq!(
        number_to_monty_object(&JsonNumber::Unsigned(u64::MAX)),
        EngineValue::Float(18446744073709551616f64.to_bits())
    );
    assert_eq!(
        number_to_monty_object(&JsonNumber::Float(0.5f64.to_bits())),
        EngineValue::Float(0.5f64.to_bits())
    );
    assert_eq!(
        json_to_monty_object(&Json::Array(vec![Json::Number(JsonNumber::Unsigned(u64::MAX))])),
        EngineValue::List(vec![EngineValue::Float(18446744073709551616f64.to_bits())])
    );
}

#[test]
fn an_integer_above_the_exact_range_reaches_the_script_as_a_float() {
    let mut handle = ready("x = f()\n[type(x).__name__, x == 18446744073709551616.0]", &["f"]);
    assert_eq!(handle.start(), (MontyProgressTag::Pending, None));
    assert_eq!(handle.resume("18446744073709551615"), (MontyProgressTag::Complete, None));
    let value = &report(handle.complete_result_json().unwrap())["value"];
    assert_eq!(value[0], "float");
    assert_eq!(value[1], true);
}

#[test]
fn a_compiled_script_makes_a_handle_and_a_report_is_handed_on() {
    let refused = MontyHandle::compiled(Err(make_bridge_report("no")), vec!["f".to_string()]);
    assert_eq!(refused.err().unwrap(), make_bridge_report("no"));
    let script = monty::MontyRun::new(
        "f(3) + 1".to_string(),
        "<input>",
        vec![],
        monty_types::CompileOptions::default(),
    );
    let mut handle = MontyHandle::compiled(Ok(script.ok().unwrap()), vec!["f".to_string()]).ok().unwrap();
    assert_eq!(handle.pending_fn_name(), None);
    assert_eq!(handle.complete_result_json(), None);
    assert_eq!(handle.start(), (MontyProgressTag::Pending, None));
    assert_eq!(handle.pending_fn_name(), Some("f"));
    assert_eq!(handle.resume("4"), (MontyProgressTag::Complete, None));
    assert_eq!(report(handle.complete_result_json().unwrap())["value"], 5);
}

#[test]
fn written_bytes_are_handed_on_and_an_error_is_named() {
    assert_eq!(MontyHandle::written(Ok(vec![1, 2, 3])), Ok(vec![1, 2, 3]));
    assert_eq!(MontyHandle::written(Ok(vec![])), Ok(vec![]));
    assert_eq!(
        MontyHandle::written(Err("buffer full".to_string())),
        Err("snapshot failed: buffer full".to_string())
    );
}

#[test]
fn bytes_that_are_no_snapshot_are_refused_with_the_readers_message() {
    let first = ready("g(1)", &["g", "h"]);
    let bytes = first.snapshot().unwrap();
    for cut in [&bytes[..0], &bytes[..1], &bytes[..bytes.len() / 2], &bytes[..bytes.len() - 1]] {
        let cause = postcard::from_bytes::<(monty::MontyRun, Vec<String>)>(cut).err().unwrap().to_string();
        assert_eq!(MontyHandle::restore(cut).err().unwrap(), format!("restore failed: {cause}"));
    }
}

#[test]
fn bytes_behind_a_snapshot_are_refused() {
    let first = ready("g(1)", &["g", "h"]);
    let bytes = first.snapshot().unwrap();
    assert!(MontyHandle::restore(&bytes).is_ok());
    for extra in [vec![0u8], vec![0xff], vec![1, 2, 3]] {
        let mut longer = bytes.clone();
        longer.extend_from_slice(&extra);
        assert_eq!(
            MontyHandle::restore(&longer).err().unwrap(),
            "restore failed: bytes left over after the snapshot"
        );
    }
}

#[test]
fn a_snapshot_of_a_fresh_handle_restores_to_its_like() {
    let closure = "def add(n):\n    return lambda x: x + n\nclass C:\n    k = 3\nadd(C.k)(f(2))";
    for (code, functions) in [("1 + 1", vec![]), ("f(2)", vec!["f"]), ("a(b(1))", vec!["a", "b"]), (closure, vec!["f"])] {
        let mut first = ready(code, &functions);
        let mut second = MontyHandle::restore(&first.snapshot().unwrap()).ok().unwrap();
        assert_eq!(second.pending_fn_name(), None);
        assert_eq!(second.complete_result_json(), None);
        assert!(second.snapshot().is_ok());
        assert_eq!(second.start(), first.start());
        assert_eq!(second.pending_fn_name(), first.pending_fn_name());
        assert_eq!(second.pending_fn_args_json(), first.pending_fn_args_json());
        assert_eq!(second.pending_call_id(), first.pending_call_id());
    }
}

#[test]
fn whether_a_script_compiles_is_not_settled_by_its_text() {
    // The engine gives the two names that the comprehension binds the slots
    // 255 and 256 of the function, in an order that differs from one
    // compilation to the next, and the handler can unbind its name at its end
    // only in one of the first 256 slots.
    let mut code = String::from("def f():\n");
    for i in 0..255 {
        code.push_str(&format!("    v{i} = 0\n"));
    }
    code.push_str("    r = [(wa := 1) + (wb := 2) for q in [0]]\n");
    code.push_str("    try:\n        r = 1\n    except Exception as wa:\n        pass\n");
    code.push_str("    return wb\nf()\n");
    let mut compiled = 0;
    let mut refused = 0;
    for _ in 0..200 {
        match MontyHandle::new(code.clone(), vec![], None) {
            Ok(_) => compiled += 1,
            Err(report) => {
                assert_eq!(report.exc_type, "SyntaxError");
                refused += 1;
            },
        }
    }
    assert!(compiled > 0 && refused > 0, "compiled {compiled} times, refused {refused} times");
}
