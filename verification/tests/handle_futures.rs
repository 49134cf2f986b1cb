use dart_monty_native::handle::MontyHandle;
use dart_monty_native::tags::MontyProgressTag;
use serde_json::Value;

fn decode(text: &str) -> Value {
    serde_json::from_str(text).unwrap()
}

fn host_functions(list: &[&str]) -> Vec<String> {
    list.iter().map(|s| s.to_string()).collect()
}

fn async_code_single() -> &'static str {
    "async def main():\n  result = await fetch('x')\n  return result\n\nawait main()"
}

fn async_code_gather() -> &'static str {
    "import asyncio\n\nasync def main():\n  a, b = await asyncio.gather(foo(), bar())\n  return a + b\n\nawait main()"
}

#[test]
fn test_async_single_await_via_handle() {
    let mut handle = MontyHandle::new(async_code_single().into(), host_functions(&["fetch"]), None).unwrap();
    let (tag, _) = handle.start();
    assert_eq!(tag, MontyProgressTag::Pending);
    assert_eq!(handle.pending_fn_name(), Some("fetch"));

    let (tag, _) = handle.resume_as_future();
    assert_eq!(tag, MontyProgressTag::ResolveFutures);

    let call_ids = handle.pending_future_call_ids().unwrap();
    let ids: Vec<u32> = serde_json::from_str(call_ids).unwrap();
    assert_eq!(ids.len(), 1);

    let results = format!("{{\"{}\":\"response_x\"}}", ids[0]);
    let (tag, _) = handle.resume_futures(&results, "{}");
    assert_eq!(tag, MontyProgressTag::Complete);

    let result = decode(handle.complete_result_json().unwrap());
    assert_eq!(result["value"], "response_x");
}

#[test]
fn test_async_gather_via_handle() {
    let mut handle = MontyHandle::new(async_code_gather().into(), host_functions(&["foo", "bar"]), None).unwrap();

    let (tag, _) = handle.start();
    assert_eq!(tag, MontyProgressTag::Pending);
    let id0 = handle.pending_call_id().unwrap();
    let (tag, _) = handle.resume_as_future();
    assert_eq!(tag, MontyProgressTag::Pending);
    let id1 = handle.pending_call_id().unwrap();
    let (tag, _) = handle.resume_as_future();
    assert_eq!(tag, MontyProgressTag::ResolveFutures);

    let call_ids = handle.pending_future_call_ids().unwrap();
    let ids: Vec<u32> = serde_json::from_str(call_ids).unwrap();
    assert_eq!(ids.len(), 2);

    let results = format!("{{\"{}\":10,\"{}\":32}}", id0, id1);
    let (tag, _) = handle.resume_futures(&results, "{}");
    assert_eq!(tag, MontyProgressTag::Complete);

    let result = decode(handle.complete_result_json().unwrap());
    assert_eq!(result["value"], 42);
}

#[test]
fn test_async_gather_with_error_via_handle() {
    let mut handle = MontyHandle::new(async_code_gather().into(), host_functions(&["foo", "bar"]), None).unwrap();

    let (tag, _) = handle.start();
    assert_eq!(tag, MontyProgressTag::Pending);
    let id0 = handle.pending_call_id().unwrap();
    let (tag, _) = handle.resume_as_future();
    assert_eq!(tag, MontyProgressTag::Pending);
    let id1 = handle.pending_call_id().unwrap();
    let (tag, _) = handle.resume_as_future();
    assert_eq!(tag, MontyProgressTag::ResolveFutures);

    let results = format!("{{\"{}\":10}}", id0);
    let errors = format!("{{\"{}\":\"bar failed\"}}", id1);
    let (tag, _) = handle.resume_futures(&results, &errors);
    assert_eq!(tag, MontyProgressTag::Error);
    assert_eq!(handle.complete_is_error(), Some(true));
}

#[test]
fn test_async_future_call_ids_wrong_state() {
    let handle = MontyHandle::new("2 + 2".into(), vec![], None).unwrap();
    assert!(handle.pending_future_call_ids().is_none());
}

#[test]
fn test_resume_futures_wrong_state() {
    let mut handle = MontyHandle::new("2 + 2".into(), vec![], None).unwrap();
    let (tag, err) = handle.resume_futures("{}", "{}");
    assert_eq!(tag, MontyProgressTag::Error);
    assert!(err.unwrap().contains("not in Futures state"));
}

#[test]
fn test_resume_as_future_wrong_state() {
    let mut handle = MontyHandle::new("2 + 2".into(), vec![], None).unwrap();
    let (tag, err) = handle.resume_as_future();
    assert_eq!(tag, MontyProgressTag::Error);
    assert!(err.unwrap().contains("not in Paused state"));
}

#[test]
fn test_resume_futures_invalid_json() {
    let mut handle = MontyHandle::new(async_code_single().into(), host_functions(&["fetch"]), None).unwrap();
    let (tag, _) = handle.start();
    assert_eq!(tag, MontyProgressTag::Pending);
    let (tag, _) = handle.resume_as_future();
    assert_eq!(tag, MontyProgressTag::ResolveFutures);

    let (tag, err) = handle.resume_futures("not json", "{}");
    assert_eq!(tag, MontyProgressTag::Error);
    assert!(err.unwrap().contains("invalid results JSON"));
}

#[test]
fn test_async_with_limits() {
    let mut handle = MontyHandle::new(async_code_single().into(), host_functions(&["fetch"]), None).unwrap();
    handle.set_memory_limit(10 * 1024 * 1024);
    handle.set_time_limit_ms(5000);

    let (tag, _) = handle.start();
    assert_eq!(tag, MontyProgressTag::Pending);
    let id = handle.pending_call_id().unwrap();

    let (tag, _) = handle.resume_as_future();
    assert_eq!(tag, MontyProgressTag::ResolveFutures);

    let results = format!("{{\"{id}\":\"limited_response\"}}");
    let (tag, _) = handle.resume_futures(&results, "{}");
    assert_eq!(tag, MontyProgressTag::Complete);

    let result = decode(handle.complete_result_json().unwrap());
    assert_eq!(result["value"], "limited_response");
}
