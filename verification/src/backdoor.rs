//! VMware backdoor protocol: constants, the access guard and the
//! low-bandwidth version probe.

use vstd::prelude::*;

use crate::decimal::{append_ascii, ascii_chars, signed_decimal_bytes, signed_decimal_spec};
use crate::erpc::{ChannelIds, EnhancedChan};
use crate::error::VmwError;
use crate::regs::LowBandwidthBuf;

verus! {

/// Magic value for all backdoor commands ('VMXh').
pub const BACKDOOR_MAGIC: u32 = 0x564D5868;

/// Low-bandwidth backdoor port.
pub const BACKDOOR_PORT_LB: u32 = 0x5658;

/// High-bandwidth backdoor port.
pub const BACKDOOR_PORT_HB: u32 = 0x5659;

/// Backdoor command: get version.
pub const COMMAND_GET_VERSION: u32 = 0x0A;

/// Backdoor command: enhanced RPC.
pub const COMMAND_ERPC: u32 = 0x1E;

/// The 32-bit word whose big-endian bytes are the codes of the four
/// characters of `tag`.
pub open spec fn be_word_of_tag(tag: Seq<char>) -> int {
    (tag[0] as int) * 0x100_0000 + (tag[1] as int) * 0x1_0000 + (tag[2] as int) * 0x100
        + (tag[3] as int)
}

/// The backdoor magic spells "VMXh" when read as a big-endian word.
pub proof fn lemma_magic_spells_vmxh()
    ensures
        "VMXh"@.len() == 4,
        BACKDOOR_MAGIC as int == be_word_of_tag("VMXh"@),
{
    reveal_strlit("VMXh");
}

/// The request that asks the hypervisor for the backdoor version.
pub open spec fn get_version_request_spec() -> LowBandwidthBuf {
    LowBandwidthBuf {
        eax: BACKDOOR_MAGIC,
        ebx: 0,
        ecx: COMMAND_GET_VERSION,
        edx: BACKDOOR_PORT_LB,
        ebp: 0,
        edi: 0,
        esi: 0,
    }
}

/// The message of the error built when `iopl` fails with `code`, whose
/// system description is `description`.
pub open spec fn iopl_error_message(code: i32, description: Seq<char>) -> Seq<char> {
    "iopl failed: "@ + description + " (errno: "@ + ascii_chars(signed_decimal_spec(code as int))
        + ")"@
}

/// The get-version request loads the magic ('VMXh') in `eax`, the
/// get-version command 0x0A in `ecx` and the low-bandwidth port 0x5658 in
/// `edx`, and clears the rest.
pub proof fn lemma_get_version_request_registers()
    ensures
        get_version_request_spec() == (LowBandwidthBuf {
            eax: 0x564D5868u32,
            ebx: 0u32,
            ecx: 0x0Au32,
            edx: 0x5658u32,
            ebp: 0u32,
            edi: 0u32,
            esi: 0u32,
        }),
{
}

/// The message of a failed `iopl` starts with "iopl failed: ", carries the
/// system's description unchanged, then " (errno: ", the code in signed
/// decimal, and ")".
pub proof fn lemma_iopl_error_message_parts(code: i32, description: Seq<char>)
    ensures
        ({
            let m = iopl_error_message(code, description);
            let digits = ascii_chars(signed_decimal_spec(code as int));
            let d = description.len() as int;
            &&& m.len() == 13 + description.len() + 9 + digits.len() + 1
            &&& m.subrange(0, 13) == seq!['i', 'o', 'p', 'l', ' ', 'f', 'a', 'i', 'l', 'e', 'd', ':', ' ']
            &&& m.subrange(13, 13 + d) == description
            &&& m.subrange(13 + d, 22 + d) == seq![' ', '(', 'e', 'r', 'r', 'n', 'o', ':', ' ']
            &&& m.subrange(22 + d, 22 + d + digits.len()) == digits
            &&& m.last() == ')'
        }),
{
    reveal_strlit("iopl failed: ");
    reveal_strlit(" (errno: ");
    reveal_strlit(")");
    let m = iopl_error_message(code, description);
    let digits = ascii_chars(signed_decimal_spec(code as int));
    let d = description.len() as int;
    assert(m.subrange(0, 13) =~= seq!['i', 'o', 'p', 'l', ' ', 'f', 'a', 'i', 'l', 'e', 'd', ':', ' ']);
    assert(m.subrange(13, 13 + d) =~= description);
    assert(m.subrange(13 + d, 22 + d) =~= seq![' ', '(', 'e', 'r', 'r', 'n', 'o', ':', ' ']);
    assert(m.subrange(22 + d, 22 + d + digits.len()) =~= digits);
}

/// The `Display` text of `errno::Errno(code)`: the system's description of
/// the error code, from `strerror_r`. It depends on the system and its
/// locale, so nothing is stated of the text returned.
#[verifier::external_body]
fn os_error_description(code: i32) -> (text: String) {
    errno::Errno(code).to_string()
}

/// What `release_access` gives back, given whether lowering the I/O
/// privilege level succeeded: nothing when it did, the guard otherwise.
pub open spec fn release_access_spec(g: BackdoorGuard, lowered: bool) -> Result<(), BackdoorGuard> {
    if lowered {
        Ok(())
    } else {
        Err(g)
    }
}

/// Calls that lower the I/O privilege level over the rest of the life of
/// guard `g`, when its holder tries `release_access` once per entry of
/// `attempts` (each entry says whether that lowering succeeded) for as long
/// as the guard is handed back, and then drops what is left: every attempt
/// is one call, and dropping a guard makes one call iff it releases on
/// drop.
pub open spec fn lowering_calls(g: BackdoorGuard, attempts: Seq<bool>) -> nat
    decreases attempts.len(),
{
    if attempts.len() == 0 {
        if g.releases_on_drop() {
            1
        } else {
            0
        }
    } else {
        match release_access_spec(g, attempts[0]) {
            Ok(()) => 1,
            Err(h) => 1 + lowering_calls(h, attempts.drop_first()),
        }
    }
}

/// Whether the life of guard `g` ends with the I/O privilege level lowered
/// by a call that succeeded or by the drop (which does not report back):
/// true iff some attempt succeeds, or none does and dropping the guard
/// lowers the level.
pub open spec fn ends_lowered(g: BackdoorGuard, attempts: Seq<bool>) -> bool
    decreases attempts.len(),
{
    if attempts.len() == 0 {
        g.releases_on_drop()
    } else {
        match release_access_spec(g, attempts[0]) {
            Ok(()) => true,
            Err(h) => ends_lowered(h, attempts.drop_first()),
        }
    }
}

/// A guard that raised the I/O privilege level has it lowered exactly once
/// at the end of its life: by the first `release_access` that succeeds
/// (after which nothing is left to drop), or else by the drop. Every failed
/// attempt before is one more call, and no call follows the successful one:
/// a guard that is dropped unreleased makes exactly one call, and one
/// released at the first attempt makes exactly one call.
pub proof fn lemma_privileged_guard_lowers_once(g: BackdoorGuard, attempts: Seq<bool>)
    requires
        g.releases_on_drop(),
    ensures
        ends_lowered(g, attempts),
        attempts.len() == 0 ==> lowering_calls(g, attempts) == 1,
        attempts.len() > 0 && attempts[0] ==> lowering_calls(g, attempts) == 1,
        (forall|i: int| 0 <= i < attempts.len() ==> !attempts[i]) ==> lowering_calls(g, attempts)
            == attempts.len() + 1,
    decreases attempts.len(),
{
    if attempts.len() > 0 && !attempts[0] {
        let rest = attempts.drop_first();
        lemma_privileged_guard_lowers_once(g, rest);
        if forall|i: int| 0 <= i < attempts.len() ==> !attempts[i] {
            assert forall|i: int| 0 <= i < rest.len() implies !rest[i] by {
                assert(rest[i] == attempts[i + 1]);
            }
        }
    }
}

/// A guard that did not raise the I/O privilege level never lowers it on
/// drop: only the attempts its holder makes call `iopl`.
pub proof fn lemma_plain_guard_lowers_only_on_request(g: BackdoorGuard, attempts: Seq<bool>)
    requires
        !g.releases_on_drop(),
    ensures
        lowering_calls(g, attempts) <= attempts.len(),
        attempts.len() == 0 ==> lowering_calls(g, attempts) == 0,
    decreases attempts.len(),
{
    if attempts.len() > 0 && !attempts[0] {
        lemma_plain_guard_lowers_only_on_request(g, attempts.drop_first());
    }
}

/// Guard for an open backdoor.
///
/// A guard made after raising the I/O privilege level asks its holder to
/// lower it again when the guard goes away (see `release_on_drop`).
#[derive(Debug)]
pub struct BackdoorGuard {
    release_on_drop: bool,
}

impl BackdoorGuard {
    /// Whether dropping this guard should lower the I/O privilege level.
    pub closed spec fn releases_on_drop(&self) -> bool {
        self.release_on_drop
    }

    /// Whether dropping this guard should lower the I/O privilege level.
    pub fn release_on_drop(&self) -> (r: bool)
        ensures
            r == self.releases_on_drop(),
    {
        self.release_on_drop
    }

    /// Register image of the get-version request.
    pub fn get_version_request() -> (req: LowBandwidthBuf)
        ensures
            req == get_version_request_spec(),
    {
        LowBandwidthBuf {
            eax: BACKDOOR_MAGIC,
            ebx: 0,
            ecx: COMMAND_GET_VERSION,
            edx: BACKDOOR_PORT_LB,
            ebp: 0,
            edi: 0,
            esi: 0,
        }
    }

    /// The backdoor version from the reply to the get-version request: the
    /// call succeeded iff the hypervisor echoed the magic back in `ebx`.
    pub fn get_version(&self, reply: &LowBandwidthBuf) -> (r: Result<u32, VmwError>)
        ensures
            r is Ok <==> reply.ebx == BACKDOOR_MAGIC,
            r matches Ok(v) ==> v == reply.ecx,
            r matches Err(e) ==> e@ == "get_version failed"@,
    {
        if reply.ebx != BACKDOOR_MAGIC {
            return Err(VmwError::new("get_version failed"));
        }
        Ok(reply.ecx)
    }

    /// Check whether the VMware backdoor is accessible, from the reply to
    /// the get-version request.
    pub fn probe_vmware_backdoor(&mut self, reply: &LowBandwidthBuf) -> (r: Result<(), VmwError>)
        ensures
            *final(self) == *old(self),
            r is Ok <==> reply.ebx == BACKDOOR_MAGIC,
            r matches Err(e) ==> e@ == "get_version failed"@,
    {
        match self.get_version(reply) {
            Ok(_) => Ok(()),
            Err(e) => Err(e),
        }
    }

    /// The I/O privilege level to ask `iopl` for: 3 to acquire port access,
    /// 0 to give it up.
    pub fn io_privilege_level(acquire: bool) -> (level: i32)
        ensures
            level == (if acquire { 3i32 } else { 0i32 }),
    {
        if acquire {
            0b11
        } else {
            0b00
        }
    }

    /// The error reported when `iopl` fails with the OS error `code`, whose
    /// system description is `description`.
    pub fn iopl_error(code: i32, description: &str) -> (e: VmwError)
        ensures
            e@ == iopl_error_message(code, description@),
    {
        let mut msg = String::from_str("iopl failed: ");
        msg.append(description);
        msg.append(" (errno: ");
        let digits = signed_decimal_bytes(code);
        append_ascii(&mut msg, digits.as_slice());
        msg.append(")");
        VmwError::from_string(msg)
    }

    /// Outcome of changing the I/O ports access level, from the value that
    /// `iopl` returned and the OS error code (`errno`) read right after it:
    /// success iff `iopl` returned 0. On failure the message names that OS
    /// error code and the system's description of it.
    pub fn change_io_access(iopl_result: i32, os_error: i32) -> (r: Result<(), VmwError>)
        ensures
            r is Ok <==> iopl_result == 0,
            r matches Err(e) ==> exists|description: Seq<char>|
                e@ == iopl_error_message(os_error, description),
    {
        if iopl_result != 0 {
            let description = os_error_description(os_error);
            let e = Self::iopl_error(os_error, description.as_str());
            return Err(e);
        }
        Ok(())
    }

    /// Try to release backdoor access, given the outcome of lowering the
    /// I/O privilege level. On failure the guard is handed back unchanged;
    /// on success it is consumed and has nothing left to release.
    pub fn release_access(self, lowered: Result<(), VmwError>) -> (r: Result<(), BackdoorGuard>)
        ensures
            r == release_access_spec(self, lowered is Ok),
    {
        match lowered {
            Ok(()) => Ok(()),
            Err(_) => Err(self),
        }
    }

    /// Open a channel for enhanced-RPC, from the reply to the open request
    /// (`EnhancedChan::open_request`).
    pub fn open_enhanced_chan(&mut self, reply: &LowBandwidthBuf) -> (r: Result<EnhancedChan, VmwError>)
        ensures
            *final(self) == *old(self),
            r is Ok <==> reply.ecx != 0,
            r matches Ok(ch) ==> ch@ == (ChannelIds {
                chan_id: reply.edx,
                cookie1: reply.esi,
                cookie2: reply.edi,
            }),
            r matches Err(e) ==> e@ == "erpc open failed"@,
    {
        EnhancedChan::open(self, reply)
    }
}

/// Guard for backdoor access obtained after raising the I/O privilege
/// level, given the outcome of that change. The guard asks for the level to
/// be lowered again when it goes away.
pub fn access_backdoor_privileged(io_access: Result<(), VmwError>) -> (r: Result<
    BackdoorGuard,
    VmwError,
>)
    ensures
        r is Ok <==> io_access is Ok,
        r matches Ok(g) ==> g.releases_on_drop(),
        r matches Err(e) ==> io_access matches Err(f) && e == f,
{
    match io_access {
        Ok(()) => Ok(BackdoorGuard { release_on_drop: true }),
        Err(e) => Err(e),
    }
}

/// Guard for backdoor access without any change of privilege level; it
/// does not probe the presence of the backdoor.
pub fn access_backdoor() -> (r: Result<BackdoorGuard, VmwError>)
    ensures
        r matches Ok(g) && !g.releases_on_drop(),
{
    Ok(BackdoorGuard { release_on_drop: false })
}

/// The get-version request that a privileged probe performs, given the
/// outcome of raising the I/O privilege level: none when raising it failed,
/// since the backdoor is then not probed.
pub fn privileged_probe_request(io_access: &Result<(), VmwError>) -> (req: Option<LowBandwidthBuf>)
    ensures
        req == (if io_access is Ok {
            Some(get_version_request_spec())
        } else {
            None::<LowBandwidthBuf>
        }),
{
    match io_access {
        Ok(()) => Some(BackdoorGuard::get_version_request()),
        Err(_) => None,
    }
}

/// Whether a privileged probe leaves the I/O privilege level to be lowered
/// again by its caller: when the level was raised but the backdoor did not
/// answer, the guard that was made goes away inside
/// `probe_backdoor_privileged`, and its one lowering (see
/// `lemma_privileged_guard_lowers_once`) falls to the caller.
pub fn probe_failure_owes_lowering(io_access: &Result<(), VmwError>, version_reply: &LowBandwidthBuf) -> (r: bool)
    ensures
        r == (io_access is Ok && version_reply.ebx != BACKDOOR_MAGIC),
{
    match io_access {
        Ok(()) => version_reply.ebx != BACKDOOR_MAGIC,
        Err(_) => false,
    }
}

/// Guard for backdoor access obtained by raising the I/O privilege level
/// and probing the presence of the backdoor: `io_access` is the outcome of
/// raising the level, `version_reply` the reply to the request of
/// `privileged_probe_request` (looked at only when the level was raised).
/// The guard asks for the level to be lowered again when it goes away.
pub fn probe_backdoor_privileged(io_access: Result<(), VmwError>, version_reply: &LowBandwidthBuf) -> (r: Result<
    BackdoorGuard,
    VmwError,
>)
    ensures
        r is Ok <==> (io_access is Ok && version_reply.ebx == BACKDOOR_MAGIC),
        r matches Ok(g) ==> g.releases_on_drop(),
        io_access matches Err(f) ==> r matches Err(e) && e == f,
        io_access is Ok ==> (r matches Err(e) ==> e@ == "get_version failed"@),
{
    let mut guard = match access_backdoor_privileged(io_access) {
        Ok(g) => g,
        Err(e) => return Err(e),
    };
    match guard.probe_vmware_backdoor(version_reply) {
        Ok(()) => Ok(guard),
        Err(e) => Err(e),
    }
}

/// Guard for backdoor access without any change of privilege level, once
/// the presence of the backdoor was probed: `version_reply` is the reply to
/// the get-version request.
pub fn probe_backdoor(version_reply: &LowBandwidthBuf) -> (r: Result<BackdoorGuard, VmwError>)
    ensures
        r is Ok <==> version_reply.ebx == BACKDOOR_MAGIC,
        r matches Ok(g) ==> !g.releases_on_drop(),
        r matches Err(e) ==> e@ == "get_version failed"@,
{
    let mut guard = BackdoorGuard { release_on_drop: false };
    match guard.probe_vmware_backdoor(version_reply) {
        Ok(()) => Ok(guard),
        Err(e) => Err(e),
    }
}

} // verus!
