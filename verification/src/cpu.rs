//! Detection of a VMware virtual CPU from CPUID leaves.

use vstd::prelude::*;

verus! {

/// Bit of CPUID leaf 0x1 (ECX) set when running under a hypervisor.
pub const CPUID_HYPERVISOR_BIT: u32 = 0x8000_0000;

/// The four bytes of `x`, least significant first.
pub open spec fn le_bytes_spec(x: u32) -> Seq<u8> {
    seq![
        (x & 0xffu32) as u8,
        ((x >> 8u32) & 0xffu32) as u8,
        ((x >> 16u32) & 0xffu32) as u8,
        ((x >> 24u32) & 0xffu32) as u8,
    ]
}

/// The bytes of the vendor label of CPUID leaf 0x4000_0000: `ebx`, `ecx`,
/// `edx` in turn, each least significant byte first.
pub open spec fn vendor_label_spec(ebx: u32, ecx: u32, edx: u32) -> Seq<u8> {
    le_bytes_spec(ebx) + le_bytes_spec(ecx) + le_bytes_spec(edx)
}

/// The label of VMware's hypervisor, "VMwareVMware".
pub open spec fn vmware_label() -> Seq<u8> {
    "VMwareVMware"@.map_values(|c: char| c as u8)
}

/// The hypervisor bit is bit 31; the four bytes of a word give the word
/// back, least significant first; VMware's label is the twelve bytes of
/// "VMwareVMware".
pub proof fn lemma_cpuid_encoding(x: u32)
    ensures
        CPUID_HYPERVISOR_BIT == 1u32 << 31u32,
        le_bytes_spec(x).len() == 4,
        le_bytes_spec(x)[0] as u32 | (le_bytes_spec(x)[1] as u32) << 8u32 | (le_bytes_spec(x)[2] as u32)
            << 16u32 | (le_bytes_spec(x)[3] as u32) << 24u32 == x,
        vmware_label() == seq![86u8, 77u8, 119u8, 97u8, 114u8, 101u8, 86u8, 77u8, 119u8, 97u8, 114u8, 101u8],
{
    assert(1u32 << 31u32 == 0x8000_0000u32) by (bit_vector);
    assert(((x & 0xffu32) as u8) as u32 | (((x >> 8u32) & 0xffu32) as u8 as u32) << 8u32
        | (((x >> 16u32) & 0xffu32) as u8 as u32) << 16u32 | (((x >> 24u32) & 0xffu32) as u8 as u32)
        << 24u32 == x) by (bit_vector);
    reveal_strlit("VMwareVMware");
    assert(vmware_label() =~= seq![86u8, 77u8, 119u8, 97u8, 114u8, 101u8, 86u8, 77u8, 119u8, 97u8, 114u8, 101u8]);
}

/// Whether CPUID leaf 0x1 (its ECX) reports a hypervisor.
pub fn hypervisor_present(leaf_1_ecx: u32) -> (r: bool)
    ensures
        r == (leaf_1_ecx & CPUID_HYPERVISOR_BIT != 0),
{
    (leaf_1_ecx & CPUID_HYPERVISOR_BIT) != 0
}

/// Appends the four bytes of `x`, least significant first.
fn push_le_bytes(buf: &mut Vec<u8>, x: u32)
    ensures
        final(buf)@ == old(buf)@ + le_bytes_spec(x),
{
    buf.push((x & 0xffu32) as u8);
    buf.push(((x >> 8u32) & 0xffu32) as u8);
    buf.push(((x >> 16u32) & 0xffu32) as u8);
    buf.push(((x >> 24u32) & 0xffu32) as u8);
    assert(final(buf)@ =~= old(buf)@ + le_bytes_spec(x));
}

/// Whether the registers of CPUID leaf 0x4000_0000 spell VMware's label.
pub fn is_vmware_vendor(ebx: u32, ecx: u32, edx: u32) -> (r: bool)
    ensures
        r == (vendor_label_spec(ebx, ecx, edx) == vmware_label()),
{
    proof {
        reveal_strlit("VMwareVMware");
    }
    let mut buf: Vec<u8> = Vec::with_capacity(12);
    push_le_bytes(&mut buf, ebx);
    push_le_bytes(&mut buf, ecx);
    push_le_bytes(&mut buf, edx);
    assert(buf@ =~= vendor_label_spec(ebx, ecx, edx));
    let label: [u8; 12] = [86u8, 77u8, 119u8, 97u8, 114u8, 101u8, 86u8, 77u8, 119u8, 97u8, 114u8, 101u8];
    assert(label@ =~= vmware_label());
    let mut i: usize = 0;
    while i < 12
        invariant
            0 <= i <= 12,
            buf@.len() == 12,
            label@ == vmware_label(),
            buf@ == vendor_label_spec(ebx, ecx, edx),
            forall|j: int| 0 <= j < i ==> buf@[j] == label@[j],
        decreases 12 - i,
    {
        if buf[i] != label[i] {
            assert(buf@[i as int] != label@[i as int]);
            return false;
        }
        i = i + 1;
    }
    assert(buf@ =~= label@);
    true
}

/// Check whether this is running on a VMware virtual CPU, from the ECX of
/// CPUID leaf 0x1 and, when that reports a hypervisor, the EBX, ECX and EDX
/// of CPUID leaf 0x4000_0000 (`None` when that leaf was not read).
pub fn is_vmware_cpu(leaf_1_ecx: u32, leaf_vmw: Option<(u32, u32, u32)>) -> (r: bool)
    ensures
        r == (leaf_1_ecx & CPUID_HYPERVISOR_BIT != 0 && (match leaf_vmw {
            Some((ebx, ecx, edx)) => vendor_label_spec(ebx, ecx, edx) == vmware_label(),
            None => false,
        })),
{
    if hypervisor_present(leaf_1_ecx) {
        if let Some((ebx, ecx, edx)) = leaf_vmw {
            if is_vmware_vendor(ebx, ecx, edx) {
                return true;
            }
        }
    }
    false
}

} // verus!
