use gxi::{
    route_frame, send_notification, CoreMsg, Correlator, Dispatch, Incoming, QueueSource, Routed,
    SharedQueue,
};
use serde_json::Value;

fn rev(n: u64) -> Value {
    let mut m = serde_json::Map::new();
    m.insert("rev".to_string(), Value::from(n));
    Value::Object(m)
}

fn update(n: u64) -> CoreMsg {
    CoreMsg::Notification { method: "update".to_string(), params: rev(n) }
}

fn new_view_params(path: Value) -> Value {
    let mut m = serde_json::Map::new();
    m.insert("file_path".to_string(), path);
    Value::Object(m)
}

fn revs(msgs: &[CoreMsg]) -> Vec<u64> {
    msgs.iter()
        .map(|m| match m {
            CoreMsg::Notification { params, .. } => params["rev"].as_u64().unwrap(),
            CoreMsg::NewViewReply { .. } => panic!("unexpected reply"),
        })
        .collect()
}

#[test]
fn two_updates_one_wakeup_one_drain() {
    let mut q = SharedQueue::new();
    assert!(q.add_core_msg(update(1)));
    assert!(!q.add_core_msg(update(2)));
    assert!(q.is_signaled());
    let src = QueueSource;
    let (msgs, keep) = src.dispatch(&mut q);
    assert!(keep);
    assert_eq!(revs(&msgs), vec![1, 2]);
    match &msgs[0] {
        CoreMsg::Notification { method, .. } => assert_eq!(method, "update"),
        _ => panic!("expected a notification"),
    }
    assert_eq!(q.len(), 0);
    assert!(!q.is_signaled());
}

#[test]
fn enqueue_after_drain_wakes_again() {
    let mut q = SharedQueue::new();
    assert!(q.add_core_msg(update(1)));
    assert_eq!(revs(&q.drain_and_reset()), vec![1]);
    assert!(q.add_core_msg(update(2)));
    assert!(q.is_signaled());
}

#[test]
fn drain_of_empty_mailbox_is_empty() {
    let mut q = SharedQueue::new();
    assert!(q.drain_and_reset().is_empty());
    assert!(!q.is_signaled());
    assert_eq!(q.len(), 0);
}

#[test]
fn interleaved_enqueues_and_drains_keep_order() {
    let mut q = SharedQueue::new();
    let mut seen = Vec::new();
    let mut wakes = 0;
    for n in 1..=3 {
        if q.add_core_msg(update(n)) {
            wakes += 1;
        }
    }
    seen.extend(revs(&q.drain_and_reset()));
    for n in 4..=5 {
        if q.add_core_msg(update(n)) {
            wakes += 1;
        }
    }
    seen.extend(revs(&q.drain_and_reset()));
    seen.extend(revs(&q.drain_and_reset()));
    assert_eq!(seen, vec![1, 2, 3, 4, 5]);
    assert_eq!(wakes, 2);
}

#[test]
fn burst_of_ten_writes_one_sentinel() {
    let mut q = SharedQueue::new();
    let wakes = (0..10).filter(|n| q.add_core_msg(update(*n))).count();
    assert_eq!(wakes, 1);
    assert_eq!(q.len(), 10);
}

#[test]
fn source_never_ready_by_itself() {
    let src = QueueSource;
    assert!(!src.check());
    assert_eq!(src.prepare(), (false, None));
}

#[test]
fn new_view_request_gets_id_one_and_reply_is_queued() {
    let mut corr: Correlator<Option<String>> = Correlator::new();
    let mut q = SharedQueue::new();
    let frame = corr
        .send_request("new_view".to_string(), new_view_params(Value::Null), None)
        .unwrap();
    assert_eq!(frame.id, Some(1));
    assert_eq!(frame.method, "new_view");
    assert_eq!(frame.params["file_path"], Value::Null);
    assert!(corr.is_pending(1));
    let r = route_frame(
        &mut corr,
        &mut q,
        Incoming::Response { id: 1, result: Value::from("view-id-7") },
    );
    assert!(matches!(r, Routed::Queued { wake: true }));
    assert!(!corr.is_pending(1));
    let msgs = q.drain_and_reset();
    assert_eq!(msgs.len(), 1);
    match &msgs[0] {
        CoreMsg::NewViewReply { file_name, value } => {
            assert_eq!(*file_name, None);
            assert_eq!(*value, Value::from("view-id-7"));
        }
        _ => panic!("expected a reply"),
    }
}

#[test]
fn unknown_response_is_discarded() {
    let mut corr: Correlator<Option<String>> = Correlator::new();
    let mut q = SharedQueue::new();
    let r = route_frame(&mut corr, &mut q, Incoming::Response { id: 99, result: Value::Null });
    assert!(matches!(r, Routed::Discarded { id: 99 }));
    assert_eq!(q.len(), 0);
    assert!(!q.is_signaled());
    assert!(!corr.is_pending(99));
}

#[test]
fn duplicate_response_fires_once() {
    let mut corr: Correlator<Option<String>> = Correlator::new();
    let mut q = SharedQueue::new();
    corr.send_request(
        "new_view".to_string(),
        new_view_params(Value::from("/tmp/a.txt")),
        Some("/tmp/a.txt".to_string()),
    )
    .unwrap();
    let first = route_frame(&mut corr, &mut q, Incoming::Response { id: 1, result: Value::from("v1") });
    let second = route_frame(&mut corr, &mut q, Incoming::Response { id: 1, result: Value::from("v2") });
    assert!(matches!(first, Routed::Queued { wake: true }));
    assert!(matches!(second, Routed::Discarded { id: 1 }));
    let msgs = q.drain_and_reset();
    assert_eq!(msgs.len(), 1);
    match &msgs[0] {
        CoreMsg::NewViewReply { file_name, value } => {
            assert_eq!(file_name.as_deref(), Some("/tmp/a.txt"));
            assert_eq!(*value, Value::from("v1"));
        }
        _ => panic!("expected a reply"),
    }
}

#[test]
fn responses_match_their_requests_out_of_order() {
    let mut corr: Correlator<&'static str> = Correlator::new();
    let a = corr.send_request("a".to_string(), Value::Null, "first").unwrap();
    let b = corr.send_request("b".to_string(), Value::Null, "second").unwrap();
    assert_eq!((a.id, b.id), (Some(1), Some(2)));
    match corr.dispatch(Incoming::Response { id: 2, result: Value::from(20) }) {
        Dispatch::Complete { continuation, result } => {
            assert_eq!(continuation, "second");
            assert_eq!(result, Value::from(20));
        }
        _ => panic!("expected a completion"),
    }
    match corr.dispatch(Incoming::Response { id: 1, result: Value::from(10) }) {
        Dispatch::Complete { continuation, .. } => assert_eq!(continuation, "first"),
        _ => panic!("expected a completion"),
    }
    assert!(!corr.is_pending(1) && !corr.is_pending(2));
}

#[test]
fn notification_frame_goes_to_handler_and_mailbox() {
    let mut corr: Correlator<Option<String>> = Correlator::new();
    let mut q = SharedQueue::new();
    q.add_core_msg(update(1));
    let r = route_frame(
        &mut corr,
        &mut q,
        Incoming::Notification { method: "update".to_string(), params: rev(2) },
    );
    assert!(matches!(r, Routed::Queued { wake: false }));
    assert_eq!(revs(&q.drain_and_reset()), vec![1, 2]);
    match Correlator::<u8>::new().dispatch(Incoming::Notification {
        method: "alert".to_string(),
        params: Value::Null,
    }) {
        Dispatch::Notify { method, params } => {
            assert_eq!(method, "alert");
            assert_eq!(params, Value::Null);
        }
        _ => panic!("expected a notification"),
    }
}

#[test]
fn notification_frame_has_no_id() {
    let f = send_notification("client_started".to_string(), rev(3));
    assert_eq!(f.id, None);
    assert_eq!(f.method, "client_started");
    assert_eq!(f.params, rev(3));
}
