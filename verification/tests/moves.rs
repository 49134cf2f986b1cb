use dart_monty_native::boundary::{created, read_request};
use dart_monty_native::engine::Progress;
use dart_monty_native::error::{make_bridge_report, monty_exception_to_json, ExceptionReport};
use dart_monty_native::handle::{declares, next_move, MontyHandle, Move, DEFAULT_STACK_LIMIT, MAX_AUTO_ANSWERS};
use dart_monty_native::json::{Json, JsonNumber};
use dart_monty_native::report::{build_report, usage_to_json, Usage};
use dart_monty_native::tags::{MontyProgressTag, MontyResultTag};
use dart_monty_native::value::EngineValue;
use serde_json::Value;

fn fresh() -> MontyHandle {
    MontyHandle::new("1".into(), vec![], None).ok().unwrap()
}

fn parsed(text: &str) -> Value {
    serde_json::from_str(text).unwrap()
}

fn strings(list: &[&str]) -> Vec<String> {
    list.iter().map(|s| s.to_string()).collect()
}

#[test]
fn names_are_found_among_the_declared() {
    let names = strings(&["fetch", "", "na\u{ef}ve"]);
    assert!(declares(&names, &"fetch".to_string()));
    assert!(declares(&names, &String::new()));
    assert!(declares(&names, &"na\u{ef}ve".to_string()));
    assert!(!declares(&names, &"Fetch".to_string()));
    assert!(!declares(&names, &"fetc".to_string()));
    assert!(!declares(&vec![], &"fetch".to_string()));
}

#[test]
fn progress_that_is_no_lookup_and_no_call_is_settled() {
    for budget in [0, 1, MAX_AUTO_ANSWERS] {
        match next_move(Progress::Complete(EngineValue::Int(3)), &strings(&["f"]), budget) {
            Move::Settle(Progress::Complete(value)) => assert_eq!(value, EngineValue::Int(3)),
            _ => panic!("expected the value to be settled"),
        }
        match next_move(Progress::OsCall, &vec![], budget) {
            Move::Settle(Progress::OsCall) => {}
            _ => panic!("expected the suspension to be settled"),
        }
    }
}

#[test]
fn printed_text_is_added_at_the_end() {
    let mut handle = fresh();
    handle.add_output("one\n");
    handle.add_output("");
    handle.add_output("two");
    handle.process_progress(Progress::Complete(EngineValue::Null));
    assert_eq!(parsed(handle.complete_result_json().unwrap())["print_output"], "one\ntwo");
}

#[test]
fn usage_adds_time_and_keeps_the_most_memory() {
    let mut handle = fresh();
    handle.add_usage(5, 100);
    handle.add_usage(7, 40);
    handle.add_usage(0, 0);
    handle.process_progress(Progress::Complete(EngineValue::Null));
    assert_eq!(
        handle.complete_result_json().unwrap(),
        "{\"usage\":{\"memory_bytes_used\":100,\"stack_depth_used\":0,\"time_elapsed_ms\":12},\"value\":null}"
    );

    let mut long = fresh();
    long.add_usage(u64::MAX - 1, u64::MAX);
    long.add_usage(5, 1);
    long.handle_exception(make_bridge_report("stop"));
    let report = parsed(long.complete_result_json().unwrap());
    assert_eq!(report["usage"]["time_elapsed_ms"], i64::MAX);
    assert_eq!(report["usage"]["memory_bytes_used"], i64::MAX);
    assert_eq!(report["usage"]["stack_depth_used"], 0);
}

#[test]
fn a_fresh_handle_has_used_nothing() {
    let mut handle = fresh();
    handle.finish_run(Ok(EngineValue::Bool(true)));
    assert_eq!(
        handle.complete_result_json().unwrap(),
        "{\"usage\":{\"memory_bytes_used\":0,\"stack_depth_used\":0,\"time_elapsed_ms\":0},\"value\":true}"
    );
}

#[test]
fn the_time_of_a_run_is_reported() {
    let mut handle = MontyHandle::new("i = 0\nwhile True:\n    i += 1".into(), vec![], None).ok().unwrap();
    handle.set_time_limit_ms(40);
    let (tag, result_json, _) = handle.run();
    assert_eq!(tag, MontyResultTag::Error);
    let time = parsed(&result_json)["usage"]["time_elapsed_ms"].as_u64().unwrap();
    assert!(time >= 40, "time {time}");
    assert!(time < 15_000, "time {time}");
}

#[test]
fn the_time_of_every_step_counts() {
    let code = "f()\ni = 0\nwhile True:\n    i += 1";
    let mut handle = MontyHandle::new(code.into(), strings(&["f"]), None).ok().unwrap();
    handle.set_time_limit_ms(60);
    assert_eq!(handle.start().0, MontyProgressTag::Pending);
    assert_eq!(handle.resume("null").0, MontyProgressTag::Error);
    let time = parsed(handle.complete_result_json().unwrap())["usage"]["time_elapsed_ms"].as_u64().unwrap();
    assert!(time >= 60, "time {time}");
}

#[test]
fn usage_report_is_an_object_of_three_counters() {
    let usage = Usage { memory_bytes_used: 7, time_elapsed_ms: 8, stack_depth_used: 9 };
    let number = |n: i64| Json::Number(JsonNumber::Int(n));
    assert_eq!(
        usage_to_json(&usage),
        Json::Object(vec![
            ("memory_bytes_used".to_string(), number(7)),
            ("time_elapsed_ms".to_string(), number(8)),
            ("stack_depth_used".to_string(), number(9)),
        ])
    );
    assert_eq!(
        build_report(number(1), None, &usage, "p"),
        "{\"print_output\":\"p\",\"usage\":{\"memory_bytes_used\":7,\"stack_depth_used\":9,\"time_elapsed_ms\":8},\"value\":1}"
    );
}

#[test]
fn the_bridges_own_report_has_a_summary_and_a_kind() {
    let report = make_bridge_report("unsupported progress type: OsCall");
    assert_eq!(report.summary, "unsupported progress type: OsCall");
    assert_eq!(report.exc_type, "NotImplementedError");
    assert!(report.traceback.is_empty());
    assert_eq!(
        monty_exception_to_json(&report),
        Json::Object(vec![
            ("message".to_string(), Json::String("unsupported progress type: OsCall".to_string())),
            ("exc_type".to_string(), Json::String("NotImplementedError".to_string())),
        ])
    );
}

#[test]
fn a_script_without_a_name_is_labelled_input() {
    assert_eq!(MontyHandle::label(None), "<input>");
    assert_eq!(MontyHandle::label(Some("a.py".to_string())), "a.py");
    assert_eq!(MontyHandle::label(Some(String::new())), "");
}

#[test]
fn a_host_is_given_the_summary_of_a_report() {
    let report = ExceptionReport {
        summary: "SyntaxError: bad".to_string(),
        exc_type: "SyntaxError".to_string(),
        traceback: vec![],
    };
    assert_eq!(created(Err(report)).err(), Some("SyntaxError: bad".to_string()));
    let mut handle = created(Ok(fresh())).ok().unwrap();
    assert_eq!(handle.run().0, MontyResultTag::Success);
}

#[test]
fn the_default_depth_is_the_engines() {
    assert_eq!(DEFAULT_STACK_LIMIT, monty_types::DEFAULT_MAX_RECURSION_DEPTH);
}

#[test]
fn restore_reads_the_names_it_was_given() {
    let first = MontyHandle::new("g(1)".into(), strings(&["f", "g"]), None).ok().unwrap();
    let bytes = first.snapshot().unwrap();
    let mut restored = MontyHandle::restore(&bytes).ok().unwrap();
    assert_eq!(restored.start().0, MontyProgressTag::Pending);
    assert_eq!(restored.pending_fn_name(), Some("g"));

    let mut cut = bytes.clone();
    cut.truncate(bytes.len() - 1);
    assert!(MontyHandle::restore(&cut).err().unwrap().starts_with("restore failed: "));
    assert!(MontyHandle::restore(&[]).err().unwrap().starts_with("restore failed: "));
}

#[test]
fn a_request_is_read_argument_by_argument() {
    assert_eq!(
        read_request(Some(b"1 + 1"), Some(b"f, g"), Some(b"a.py")),
        Ok(("1 + 1".to_string(), strings(&["f", "g"]), "a.py".to_string()))
    );
    assert_eq!(read_request(Some(b""), None, None), Ok((String::new(), vec![], "<input>".to_string())));
    assert_eq!(read_request(Some(b"x"), Some(b""), Some(b"")), Ok(("x".to_string(), vec![], String::new())));
    assert_eq!(read_request(None, Some(&[0xff]), Some(&[0xff])), Err("code is NULL".to_string()));
    assert_eq!(read_request(Some(&[0xff]), Some(&[0xff]), None), Err("code is not valid UTF-8".to_string()));
    assert_eq!(
        read_request(Some(b"x"), Some(&[0xff]), Some(&[0xff])),
        Err("ext_fns is not valid UTF-8".to_string())
    );
    assert_eq!(
        read_request(Some(b"x"), Some(b"f"), Some(&[0xff])),
        Err("script_name is not valid UTF-8".to_string())
    );
}
