use aethel::container::{first_nul, AethelProcess, ChildStep, Container, ContainerBuilder, Error};
use aethel::error::AethelError;
use aethel::namespaces::{old_root_path, pivot_steps, PivotStep, OLD_ROOT_MODE};
use aethel::paths::join_path;

#[test]
fn builder_defaults() {
    let b = ContainerBuilder::new("test-container", "/bin/sh").ok().unwrap();
    assert_eq!(b.id(), "test-container");
    assert_eq!(b.rootfs(), "/");
    assert_eq!(b.argv(), vec!["/bin/sh".to_string()]);
}

#[test]
fn nul_in_command_is_container_setup() {
    match ContainerBuilder::new("c", "/bin/s\0h") {
        Err(e) => {
            assert!(matches!(e, Error::InvalidCString(6)));
            match e.to_aethel() {
                AethelError::ContainerSetup(m) => {
                    assert_eq!(m, "Failed to create C-style string for command: nul byte found at position 6")
                }
                _ => panic!("wrong kind"),
            }
        }
        Ok(_) => panic!("NUL accepted"),
    }
}

#[test]
fn nul_in_argument_is_refused() {
    let b = ContainerBuilder::new("c", "/bin/sh").ok().unwrap();
    let r = b.args(&vec!["-c".to_string(), "\0echo".to_string()]);
    assert!(matches!(r, Err(Error::InvalidCString(0))));
}

#[test]
fn argv_is_command_then_args() {
    let b = ContainerBuilder::new("c", "/bin/sh")
        .ok()
        .unwrap()
        .args(&vec!["-c".to_string(), "sleep 5".to_string()])
        .ok()
        .unwrap()
        .with_rootfs("rootfs/alpine");
    assert_eq!(b.argv(), vec!["/bin/sh".to_string(), "-c".to_string(), "sleep 5".to_string()]);
    assert_eq!(b.rootfs(), "rootfs/alpine");
    assert_eq!(b.shell_path(), "rootfs/alpine/bin/sh");
}

#[test]
fn child_steps_in_order() {
    let b = ContainerBuilder::new("c", "/bin/sh").ok().unwrap();
    assert_eq!(
        b.child_steps(true),
        vec![
            ChildStep::RedirectStdout,
            ChildStep::RedirectStderr,
            ChildStep::CloseReadEnd,
            ChildStep::CloseWriteEnd,
            ChildStep::EnterRootfs,
            ChildStep::Exec
        ]
    );
    assert_eq!(b.child_steps(false)[4], ChildStep::SkipRootfs);
}

#[test]
fn first_nul_positions() {
    assert_eq!(first_nul("abc"), None);
    assert_eq!(first_nul(""), None);
    assert_eq!(first_nul("a\0b\0"), Some(1));
}

#[test]
fn error_messages() {
    assert_eq!(Error::Nix(3).message(), "Nix syscall failed: errno 3");
    assert_eq!(Error::Nix(-1).message(), "Nix syscall failed: errno -1");
    assert_eq!(Error::Io("disk".to_string()).message(), "I/O error: disk");
    assert!(matches!(Error::Nix(3).to_aethel(), AethelError::Nix(_)));
    assert!(matches!(Error::Io("x".to_string()).to_aethel(), AethelError::Io(_)));
    assert_eq!(AethelError::Namespace("pivot".to_string()).message(), "Namespace Error: pivot");
    assert_eq!(AethelError::Io("x".to_string()).message(), "IO Error: x");
    assert_eq!(AethelError::Cgroup("x".to_string()).message(), "Cgroup Error: x");
}

#[test]
fn container_handle_reports_its_parts() {
    let c = Container::new("abc".to_string(), AethelProcess::from_pid(4321), 7);
    assert_eq!(c.id(), "abc");
    assert_eq!(c.pid(), 4321);
    assert_eq!(c.log_fd(), 7);
}

#[test]
fn wait_on_a_non_child_fails() {
    let c = Container::new("abc".to_string(), AethelProcess::from_pid(i32::MAX), 7);
    assert!(matches!(c.wait(), Err(Error::Nix(_))));
}

#[test]
fn pivot_plan_order_and_paths() {
    assert_eq!(
        pivot_steps(),
        vec![
            PivotStep::BindNewRoot,
            PivotStep::MakeOldRoot,
            PivotStep::Pivot,
            PivotStep::EnterRoot,
            PivotStep::MountProc,
            PivotStep::DetachOldRoot,
            PivotStep::RemoveOldRoot
        ]
    );
    assert_eq!(old_root_path("rootfs/alpine"), "rootfs/alpine/old_root");
    assert_eq!(old_root_path("rootfs/alpine/"), "rootfs/alpine/old_root");
    assert_eq!(OLD_ROOT_MODE, 0o700);
}

#[test]
fn join_path_cases() {
    assert_eq!(join_path("", "a"), "a");
    assert_eq!(join_path("a/", "b"), "a/b");
    assert_eq!(join_path("a", "b"), "a/b");
}
