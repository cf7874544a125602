use aethel::registry::{
    build_failure, container_name, materialize_failure, not_found, CreateRequest, Registry, RpcError,
};

fn request(image: &str, name: &str) -> CreateRequest {
    CreateRequest {
        image_name: image.to_string(),
        name: name.to_string(),
        command: "/bin/sh".to_string(),
        args: vec!["-c".to_string(), "sleep 30".to_string()],
    }
}

fn is_uuid_text(s: &str) -> bool {
    s.len() == 36
        && s.char_indices().all(|(i, c)| {
            if i == 8 || i == 13 || i == 18 || i == 23 {
                c == '-'
            } else {
                c.is_ascii_digit() || ('a'..='f').contains(&c)
            }
        })
}

fn create(reg: &mut Registry, image: &str, name: &str, pid: i32) -> aethel::registry::ContainerInfo {
    let pending = reg.prepare_create(&request(image, name)).ok().expect("address left");
    reg.complete_create(pending, pid).ok().expect("create succeeds")
}

#[test]
fn create_list_delete_single() {
    let mut reg = Registry::new();
    let info = create(&mut reg, "alpine", "", 4242);
    assert!(is_uuid_text(&info.id));
    assert_eq!(info.name, format!("aethel-{}", &info.id[..8]));
    assert_eq!(info.image, "alpine");
    assert_eq!(info.status, "Running");
    assert_eq!(info.ip_address, "172.29.0.2");

    let list = reg.list();
    assert_eq!(list.len(), 1);
    assert_eq!(list[0].id, info.id);
    assert_eq!(list[0].status, "Running");

    assert!(reg.apply_kill_outcome(&info.id, Ok(())).is_ok());
    assert!(reg.list().is_empty());
}

#[test]
fn concurrent_creation_of_ten() {
    let mut reg = Registry::new();
    let mut ids = Vec::new();
    for i in 0..10 {
        let info = create(&mut reg, "alpine", &format!("stress-{i}"), 1000 + i);
        assert_eq!(info.ip_address, format!("172.29.0.{}", i + 2));
        assert_eq!(info.name, format!("stress-{i}"));
        ids.push(info.id);
    }
    let mut sorted = ids.clone();
    sorted.sort();
    sorted.dedup();
    assert_eq!(sorted.len(), 10);
    assert_eq!(reg.list().len(), 10);
    for id in &ids {
        assert!(reg.apply_kill_outcome(id, Ok(())).is_ok());
    }
    assert!(reg.list().is_empty());
}

#[test]
fn get_not_found() {
    let reg = Registry::new();
    assert!(matches!(reg.get(&"nonexistent".to_string()), Err(RpcError::NotFound(_))));
}

#[test]
fn fresh_registry_lists_nothing() {
    let mut reg = Registry::new();
    create(&mut reg, "alpine", "resilience-test", 77);
    assert_eq!(reg.list().len(), 1);
    let restarted = Registry::new();
    assert!(restarted.list().is_empty());
}

#[test]
fn image_failure_names_the_image() {
    let e = materialize_failure(&"broken".to_string(), &"expected value at line 1 column 1".to_string());
    match e {
        RpcError::FailedPrecondition(m) => {
            assert!(m.contains("broken"));
            assert_eq!(m, "Failed to prepare rootfs for image 'broken': expected value at line 1 column 1");
        }
        _ => panic!("wrong kind"),
    }
}

#[test]
fn build_failure_is_internal() {
    match build_failure(&"boom".to_string()) {
        RpcError::Internal(m) => assert_eq!(m, "Failed to build container: boom"),
        _ => panic!("wrong kind"),
    }
}

#[test]
fn not_found_message() {
    match not_found() {
        RpcError::NotFound(m) => assert_eq!(m, "Container not found"),
        _ => panic!("wrong kind"),
    }
}

#[test]
fn get_returns_what_create_returned() {
    let mut reg = Registry::new();
    let info = create(&mut reg, "alpine", "web", 31);
    let got = reg.get(&info.id).ok().expect("found");
    assert_eq!(got.id, info.id);
    assert_eq!(got.name, info.name);
    assert_eq!(got.image, info.image);
    assert_eq!(got.status, info.status);
    assert_eq!(got.ip_address, info.ip_address);
}

#[test]
fn get_after_delete_is_not_found() {
    let mut reg = Registry::new();
    let a = create(&mut reg, "alpine", "a", 10);
    let b = create(&mut reg, "alpine", "b", 11);
    assert!(reg.apply_kill_outcome(&a.id, Ok(())).is_ok());
    assert!(matches!(reg.get(&a.id), Err(RpcError::NotFound(_))));
    assert_eq!(reg.get(&b.id).ok().expect("kept").ip_address, "172.29.0.3");
}

#[test]
fn failed_kill_keeps_the_record() {
    let mut reg = Registry::new();
    let a = create(&mut reg, "alpine", "a", 10);
    match reg.apply_kill_outcome(&a.id, Err("EPERM: Operation not permitted".to_string())) {
        Err(RpcError::Internal(m)) => assert_eq!(m, "Failed to kill container: EPERM: Operation not permitted"),
        _ => panic!("expected Internal"),
    }
    assert_eq!(reg.list().len(), 1);
}

#[test]
fn delete_unknown_is_not_found() {
    let mut reg = Registry::new();
    create(&mut reg, "alpine", "a", 10);
    assert!(matches!(reg.delete(&"nonexistent".to_string()), Err(RpcError::NotFound(_))));
    assert!(matches!(reg.apply_kill_outcome(&"nonexistent".to_string(), Ok(())), Err(RpcError::NotFound(_))));
    assert_eq!(reg.list().len(), 1);
}

#[test]
fn delete_of_vanished_process_is_internal() {
    let mut reg = Registry::new();
    let a = create(&mut reg, "alpine", "a", i32::MAX);
    assert!(matches!(reg.delete(&a.id), Err(RpcError::Internal(_))));
    assert_eq!(reg.list().len(), 1);
}

#[test]
fn addresses_run_out_at_255() {
    let mut reg = Registry::new();
    for i in 0..253 {
        let info = create(&mut reg, "alpine", "x", 100 + i);
        assert_eq!(info.ip_address, format!("172.29.0.{}", i + 2));
    }
    assert!(matches!(reg.prepare_create(&request("alpine", "x")), Err(RpcError::ResourceExhausted(_))));
    assert_eq!(reg.list().len(), 253);
    let last = reg.list().pop().unwrap();
    assert_eq!(last.ip_address, "172.29.0.254");
    // Deleting does not give addresses back.
    assert!(reg.apply_kill_outcome(&last.id, Ok(())).is_ok());
    assert!(matches!(reg.prepare_create(&request("alpine", "x")), Err(RpcError::ResourceExhausted(_))));
}

#[test]
fn complete_create_refuses_bad_pid_and_reused_id() {
    let mut reg = Registry::new();
    let pending = reg.prepare_create(&request("alpine", "")).ok().unwrap();
    assert!(matches!(reg.complete_create(pending, 0), Err(RpcError::Internal(_))));
    assert!(reg.list().is_empty());

    let first = create(&mut reg, "alpine", "", 5);
    let mut again = reg.prepare_create(&request("alpine", "")).ok().unwrap();
    again.id = first.id.clone();
    assert!(matches!(reg.complete_create(again, 6), Err(RpcError::Internal(_))));
    assert_eq!(reg.list().len(), 1);
    // The failed attempts took no address.
    let next = create(&mut reg, "alpine", "", 7);
    assert_eq!(next.ip_address, "172.29.0.3");
}

#[test]
fn default_and_requested_names() {
    let id = "0123abcd-0000-4000-8000-000000000000".to_string();
    assert_eq!(container_name(&id, &String::new()), "aethel-0123abcd");
    assert_eq!(container_name(&id, &"web".to_string()), "web");
}

#[test]
fn pending_create_carries_the_request() {
    let reg = Registry::new();
    let p = reg.prepare_create(&request("alpine", "")).ok().unwrap();
    assert!(is_uuid_text(&p.id));
    assert_eq!(p.name, format!("aethel-{}", &p.id[..8]));
    assert_eq!(p.image, "alpine");
    assert_eq!(p.command, "/bin/sh");
    assert_eq!(p.args, vec!["-c".to_string(), "sleep 30".to_string()]);
    let b = p.builder().ok().expect("no NUL");
    assert_eq!(b.rootfs(), "rootfs/alpine");
    assert_eq!(b.argv(), vec!["/bin/sh".to_string(), "-c".to_string(), "sleep 30".to_string()]);
    assert_eq!(b.id(), &p.id);
}

#[test]
fn two_creates_get_distinct_ids() {
    let mut reg = Registry::new();
    let a = create(&mut reg, "alpine", "", 1);
    let b = create(&mut reg, "alpine", "", 2);
    assert_ne!(a.id, b.id);
    assert_ne!(a.ip_address, b.ip_address);
}

#[test]
fn deleted_id_is_never_issued_again() {
    let mut reg = Registry::new();
    let a = create(&mut reg, "alpine", "a", 10);
    assert!(reg.apply_kill_outcome(&a.id, Ok(())).is_ok());
    let mut again = reg.prepare_create(&request("alpine", "")).ok().unwrap();
    assert_ne!(again.id, a.id);
    again.id = a.id.clone();
    assert!(matches!(reg.complete_create(again, 11), Err(RpcError::Internal(_))));
    assert!(matches!(reg.get(&a.id), Err(RpcError::NotFound(_))));
    let b = create(&mut reg, "alpine", "b", 12);
    assert_eq!(b.ip_address, "172.29.0.3");
}

#[test]
fn kill_target_is_the_record_pid() {
    let mut reg = Registry::new();
    let a = create(&mut reg, "alpine", "a", 4321);
    let b = create(&mut reg, "alpine", "b", 8765);
    assert_eq!(reg.kill_target(&a.id), Some(4321));
    assert_eq!(reg.kill_target(&b.id), Some(8765));
    assert_eq!(reg.kill_target(&"nonexistent".to_string()), None);
    assert!(reg.apply_kill_outcome(&a.id, Ok(())).is_ok());
    assert_eq!(reg.kill_target(&a.id), None);
}

#[test]
fn get_survives_other_creates_and_deletes() {
    let mut reg = Registry::new();
    let a = create(&mut reg, "alpine", "a", 10);
    let b = create(&mut reg, "alpine", "b", 11);
    assert!(reg.apply_kill_outcome(&b.id, Ok(())).is_ok());
    create(&mut reg, "alpine", "c", 12);
    let got = reg.get(&a.id).ok().unwrap();
    assert_eq!(got.name, "a");
    assert_eq!(got.ip_address, a.ip_address);
    let listed: Vec<String> = reg.list().into_iter().map(|c| c.name).collect();
    assert_eq!(listed, vec!["a".to_string(), "c".to_string()]);
}
