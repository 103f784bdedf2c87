use pwner::pid::{pid, pid_if_any, raw_pid};

#[test]
fn small_ids_keep_their_value() {
    assert_eq!(raw_pid(0), 0);
    assert_eq!(raw_pid(1), 1);
    assert_eq!(raw_pid(4242), 4242);
    assert_eq!(raw_pid(0x7fff_ffff), i32::MAX);
}

#[test]
fn large_ids_wrap_to_negative() {
    assert_eq!(raw_pid(0x8000_0000), i32::MIN);
    assert_eq!(raw_pid(u32::MAX), -1);
    assert_eq!(raw_pid(0xffff_fffe), -2);
}

#[test]
fn nix_pid_holds_the_wrapped_id() {
    assert_eq!(pid(4242).as_raw(), 4242);
    assert_eq!(pid(u32::MAX).as_raw(), -1);
    assert_eq!(pid(0x8000_0000), nix::unistd::Pid::from_raw(i32::MIN));
}

#[test]
fn nix_pid_only_while_the_child_has_an_id() {
    assert_eq!(pid_if_any(None), None);
    assert_eq!(pid_if_any(Some(77)).map(|p| p.as_raw()), Some(77));
    assert_eq!(pid_if_any(Some(u32::MAX)).map(|p| p.as_raw()), Some(-1));
}
