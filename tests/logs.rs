use aethel::logs::{forward_chunk, log_entry, Forwarded};
use aethel::registry::{CreateRequest, Registry, RpcError};
use tokio::sync::broadcast::error::TryRecvError;

fn registry_with_one() -> (Registry, String) {
    let mut reg = Registry::new();
    let req = CreateRequest {
        image_name: "alpine".to_string(),
        name: String::new(),
        command: "/bin/sh".to_string(),
        args: vec![],
    };
    let p = reg.prepare_create(&req).ok().unwrap();
    let info = reg.complete_create(p, 99).ok().unwrap();
    (reg, info.id)
}

#[test]
fn stream_logs_unknown_id_is_not_found() {
    let (reg, _) = registry_with_one();
    assert!(matches!(reg.subscribe_logs(&"nonexistent".to_string()), Err(RpcError::NotFound(_))));
    assert!(reg.log_broadcaster(&"nonexistent".to_string()).is_none());
}

#[test]
fn subscriber_receives_later_chunks() {
    let (reg, id) = registry_with_one();
    let mut rx = reg.subscribe_logs(&id).ok().unwrap();
    let tx = reg.log_broadcaster(&id).unwrap();
    assert_eq!(forward_chunk(tx, b"hello\n"), Forwarded::Published);
    assert_eq!(forward_chunk(tx, &[0xff, 0xfe]), Forwarded::Dropped);
    assert_eq!(forward_chunk(tx, b"CHECKS_PASSED\n"), Forwarded::Published);
    assert_eq!(forward_chunk(tx, b""), Forwarded::EndOfStream);
    assert_eq!(rx.try_recv().unwrap(), "hello\n");
    assert_eq!(rx.try_recv().unwrap(), "CHECKS_PASSED\n");
    assert!(matches!(rx.try_recv(), Err(TryRecvError::Empty)));
}

#[test]
fn lagging_subscriber_resumes_without_stalling_writer() {
    let (reg, id) = registry_with_one();
    let mut rx = reg.subscribe_logs(&id).ok().unwrap();
    let tx = reg.log_broadcaster(&id).unwrap();
    for i in 0..1500 {
        assert_eq!(forward_chunk(tx, format!("line {i}\n").as_bytes()), Forwarded::Published);
    }
    assert!(matches!(rx.try_recv(), Err(TryRecvError::Lagged(_))));
    let next = rx.try_recv().unwrap();
    assert!(next.starts_with("line "));
    assert_eq!(forward_chunk(tx, b"after\n"), Forwarded::Published);
    let mut last = next;
    while let Ok(s) = rx.try_recv() {
        last = s;
    }
    assert_eq!(last, "after\n");
}

#[test]
fn deleted_container_closes_its_stream() {
    let (mut reg, id) = registry_with_one();
    let mut rx = reg.subscribe_logs(&id).ok().unwrap();
    assert!(reg.apply_kill_outcome(&id, Ok(())).is_ok());
    assert!(matches!(rx.try_recv(), Err(TryRecvError::Closed)));
}

#[test]
fn log_entry_decodes_utf8_only() {
    assert_eq!(log_entry("héllo".as_bytes()), Some("héllo".to_string()));
    assert_eq!(log_entry(&[b'a', 0xc3]), None);
    assert_eq!(log_entry(b""), Some(String::new()));
}
