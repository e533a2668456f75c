//! Register images exchanged with the hypervisor on a backdoor call.

use vstd::prelude::*;

verus! {

/// Registers loaded before, and read back after, a low-bandwidth backdoor
/// call (a single port access).
#[derive(Clone, Copy, Debug, PartialEq, Eq, Structural)]
pub struct LowBandwidthBuf {
    pub eax: u32,
    pub ebx: u32,
    pub ecx: u32,
    pub edx: u32,
    pub ebp: u32,
    pub edi: u32,
    pub esi: u32,
}

/// Registers loaded before, and read back after, a high-bandwidth backdoor
/// call (a string transfer through the port).
#[derive(Clone, Copy, Debug, PartialEq, Eq, Structural)]
pub struct HighBandwidthBuf {
    pub eax: u32,
    pub ebx: u32,
    pub ecx: u32,
    pub edx: u32,
    pub ebp: u32,
    pub rdi: u64,
    pub rsi: u64,
}

/// The low-bandwidth image with every register cleared.
pub open spec fn zeroed_low_bandwidth() -> LowBandwidthBuf {
    LowBandwidthBuf { eax: 0, ebx: 0, ecx: 0, edx: 0, ebp: 0, edi: 0, esi: 0 }
}

/// The high-bandwidth image with every register cleared.
pub open spec fn zeroed_high_bandwidth() -> HighBandwidthBuf {
    HighBandwidthBuf { eax: 0, ebx: 0, ecx: 0, edx: 0, ebp: 0, rdi: 0, rsi: 0 }
}

/// The cleared images hold 0 in every register.
pub proof fn lemma_zeroed_images()
    ensures
        ({
            let b = zeroed_low_bandwidth();
            b.eax == 0 && b.ebx == 0 && b.ecx == 0 && b.edx == 0 && b.ebp == 0 && b.edi == 0
                && b.esi == 0
        }),
        ({
            let b = zeroed_high_bandwidth();
            b.eax == 0 && b.ebx == 0 && b.ecx == 0 && b.edx == 0 && b.ebp == 0 && b.rdi == 0
                && b.rsi == 0
        }),
{
}

impl Default for LowBandwidthBuf {
    fn default() -> (b: LowBandwidthBuf)
        ensures
            b == zeroed_low_bandwidth(),
    {
        LowBandwidthBuf { eax: 0, ebx: 0, ecx: 0, edx: 0, ebp: 0, edi: 0, esi: 0 }
    }
}

impl Default for HighBandwidthBuf {
    fn default() -> (b: HighBandwidthBuf)
        ensures
            b == zeroed_high_bandwidth(),
    {
        HighBandwidthBuf { eax: 0, ebx: 0, ecx: 0, edx: 0, ebp: 0, rdi: 0, rsi: 0 }
    }
}

} // verus!
