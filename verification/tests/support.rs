use vmw_backdoor::{
    decimal_bytes, hypervisor_present, is_vmware_cpu, is_vmware_vendor, signed_decimal_bytes, VmwError,
};

#[test]
fn decimal_rendering() {
    assert_eq!(decimal_bytes(0), b"0".to_vec());
    assert_eq!(decimal_bytes(7), b"7".to_vec());
    assert_eq!(decimal_bytes(10), b"10".to_vec());
    assert_eq!(decimal_bytes(2147483647), b"2147483647".to_vec());
    assert_eq!(decimal_bytes(u64::MAX), b"18446744073709551615".to_vec());
    assert_eq!(signed_decimal_bytes(-1), b"-1".to_vec());
    assert_eq!(signed_decimal_bytes(i32::MIN), b"-2147483648".to_vec());
    assert_eq!(signed_decimal_bytes(42), b"42".to_vec());
}

#[test]
fn decimal_round_trip_examples() {
    for n in [0u64, 1, 9, 10, 99, 100, 12345, 4294967295] {
        let s = String::from_utf8(decimal_bytes(n)).unwrap();
        assert_eq!(s.parse::<u64>().unwrap(), n);
        assert!(n == 0 || !s.starts_with('0'));
    }
}

#[test]
fn error_display() {
    let e = VmwError::from_string(String::from("boom"));
    assert_eq!(e.to_string(), "vmware backdoor error: boom");
    assert_eq!(VmwError::new("").to_string(), "vmware backdoor error: ");
}

#[test]
fn vmware_cpu_detection() {
    assert!(hypervisor_present(0x8000_0000));
    assert!(hypervisor_present(0xffff_ffff));
    assert!(!hypervisor_present(0x7fff_ffff));
    let ebx = u32::from_le_bytes(*b"VMwa");
    let ecx = u32::from_le_bytes(*b"reVM");
    let edx = u32::from_le_bytes(*b"ware");
    assert!(is_vmware_vendor(ebx, ecx, edx));
    assert!(!is_vmware_vendor(ecx, ebx, edx));
    assert!(!is_vmware_vendor(u32::from_le_bytes(*b"KVMK"), u32::from_le_bytes(*b"VMKV"), 0x4d));
}

#[test]
fn error_from_string() {
    let e: VmwError = String::from("bad reply").into();
    assert_eq!(e.message(), "bad reply");
}

#[test]
fn error_from_str() {
    let e = VmwError::from("erpc open failed");
    assert_eq!(e.message(), "erpc open failed");
    assert_eq!(e.to_string(), "vmware backdoor error: erpc open failed");
}

#[test]
fn vmware_cpu_from_cpuid_words() {
    let ebx = u32::from_le_bytes(*b"VMwa");
    let ecx = u32::from_le_bytes(*b"reVM");
    let edx = u32::from_le_bytes(*b"ware");
    assert!(is_vmware_cpu(0x8000_0000, Some((ebx, ecx, edx))));
    assert!(!is_vmware_cpu(0x8000_0000, None));
    assert!(!is_vmware_cpu(0, Some((ebx, ecx, edx))));
    assert!(!is_vmware_cpu(0x8000_0000, Some((edx, ecx, ebx))));
}
