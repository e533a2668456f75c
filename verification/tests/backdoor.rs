use vmw_backdoor::{
    probe_failure_owes_lowering, privileged_probe_request, access_backdoor, access_backdoor_privileged, probe_backdoor, probe_backdoor_privileged,
    BackdoorGuard, LowBandwidthBuf, VmwError, BACKDOOR_MAGIC, BACKDOOR_PORT_LB,
    COMMAND_GET_VERSION,
};

fn low(eax: u32, ebx: u32, ecx: u32, edx: u32, ebp: u32, edi: u32, esi: u32) -> LowBandwidthBuf {
    LowBandwidthBuf { eax, ebx, ecx, edx, ebp, edi, esi }
}

#[test]
fn test_magic_string() {
    assert_eq!(BACKDOOR_MAGIC, u32::from_be_bytes(*b"VMXh"));
}

#[test]
fn get_version_request_image() {
    let req = BackdoorGuard::get_version_request();
    assert_eq!(req, low(0x564D5868, 0, COMMAND_GET_VERSION, BACKDOOR_PORT_LB, 0, 0, 0));
    assert_eq!(COMMAND_GET_VERSION, 0x0A);
    assert_eq!(BACKDOOR_PORT_LB, 0x5658);
}

#[test]
fn get_version_reads_ecx_when_magic_echoed() {
    let guard = access_backdoor().unwrap();
    let reply = low(0, BACKDOOR_MAGIC, 6, 0, 0, 0, 0);
    assert_eq!(guard.get_version(&reply).unwrap(), 6);
}

#[test]
fn get_version_fails_without_magic() {
    let guard = access_backdoor().unwrap();
    let reply = low(0, 0x1234, 6, 0, 0, 0, 0);
    let e = guard.get_version(&reply).unwrap_err();
    assert_eq!(e.message(), "get_version failed");
    assert_eq!(e.to_string(), "vmware backdoor error: get_version failed");
}

#[test]
fn probe_vmware_backdoor_outcomes() {
    let mut guard = access_backdoor().unwrap();
    assert!(guard.probe_vmware_backdoor(&low(0, BACKDOOR_MAGIC, 0, 0, 0, 0, 0)).is_ok());
    assert!(guard.probe_vmware_backdoor(&low(0, 0, 0, 0, 0, 0, 0)).is_err());
    assert!(!guard.release_on_drop());
}

#[test]
fn access_backdoor_does_not_release() {
    let guard = access_backdoor().unwrap();
    assert!(!guard.release_on_drop());
}

#[test]
fn access_backdoor_privileged_releases_on_drop() {
    let guard = access_backdoor_privileged(Ok(())).unwrap();
    assert!(guard.release_on_drop());
}

#[test]
fn access_backdoor_privileged_passes_error_on() {
    let e = access_backdoor_privileged(Err(VmwError::new("iopl failed: x (errno: 1)"))).unwrap_err();
    assert_eq!(e.message(), "iopl failed: x (errno: 1)");
}

#[test]
fn probe_backdoor_variants() {
    let good = low(0, BACKDOOR_MAGIC, 0, 0, 0, 0, 0);
    let bad = low(0, 7, 0, 0, 0, 0, 0);
    assert!(!probe_backdoor(&good).unwrap().release_on_drop());
    assert!(probe_backdoor_privileged(Ok(()), &good).unwrap().release_on_drop());
    assert_eq!(probe_backdoor(&bad).unwrap_err().message(), "get_version failed");
    assert_eq!(probe_backdoor_privileged(Ok(()), &bad).unwrap_err().message(), "get_version failed");
}

#[test]
fn io_privilege_levels() {
    assert_eq!(BackdoorGuard::io_privilege_level(true), 3);
    assert_eq!(BackdoorGuard::io_privilege_level(false), 0);
}

#[test]
fn change_io_access_success() {
    assert!(BackdoorGuard::change_io_access(0, 1).is_ok());
}

#[test]
fn change_io_access_failure_names_errno() {
    let e = BackdoorGuard::change_io_access(-1, 1).unwrap_err();
    let m = e.message();
    assert!(m.starts_with("iopl failed: "));
    assert!(m.ends_with(" (errno: 1)"));
    assert!(m.len() > "iopl failed:  (errno: 1)".len());
}

#[test]
fn iopl_error_message_exact() {
    let e = BackdoorGuard::iopl_error(1, "Operation not permitted");
    assert_eq!(e.message(), "iopl failed: Operation not permitted (errno: 1)");
    let e = BackdoorGuard::iopl_error(-22, "x");
    assert_eq!(e.message(), "iopl failed: x (errno: -22)");
    let e = BackdoorGuard::iopl_error(i32::MIN, "");
    assert_eq!(e.message(), "iopl failed:  (errno: -2147483648)");
}

#[test]
fn release_access_outcomes() {
    let guard = access_backdoor_privileged(Ok(())).unwrap();
    let guard = guard.release_access(Err(VmwError::new("no"))).unwrap_err();
    assert!(guard.release_on_drop());
    assert!(guard.release_access(Ok(())).is_ok());
}

#[test]
fn probe_backdoor_privileged_without_io_access() {
    let good = low(0, BACKDOOR_MAGIC, 0, 0, 0, 0, 0);
    let e = probe_backdoor_privileged(Err(VmwError::new("iopl failed: no (errno: 1)")), &good)
        .unwrap_err();
    assert_eq!(e.message(), "iopl failed: no (errno: 1)");
}

#[test]
fn privileged_probe_request_only_after_io_access() {
    assert_eq!(
        privileged_probe_request(&Ok(())),
        Some(BackdoorGuard::get_version_request())
    );
    assert_eq!(privileged_probe_request(&Err(VmwError::new("x"))), None);
}

#[test]
fn failed_privileged_probe_owes_lowering() {
    let good = low(0, BACKDOOR_MAGIC, 0, 0, 0, 0, 0);
    let bad = low(0, 0, 0, 0, 0, 0, 0);
    assert!(probe_failure_owes_lowering(&Ok(()), &bad));
    assert!(!probe_failure_owes_lowering(&Ok(()), &good));
    assert!(!probe_failure_owes_lowering(&Err(VmwError::new("x")), &bad));
}

#[test]
fn released_guard_is_consumed_unreleased_guard_kept() {
    let guard = access_backdoor_privileged(Ok(())).unwrap();
    let guard = guard.release_access(Err(VmwError::new("busy"))).unwrap_err();
    assert!(guard.release_on_drop());
    let guard = guard.release_access(Err(VmwError::new("busy"))).unwrap_err();
    assert!(guard.release_access(Ok(())).is_ok());
}
