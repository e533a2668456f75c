//! Enhanced-RPC protocol (ERPC): channels, command framing, the
//! four-step command/reply exchange and the interpretation of replies.

use vstd::prelude::*;
use vstd::string::StringSliceAdditionalSpecFns;

use crate::backdoor::{BackdoorGuard, BACKDOOR_MAGIC, BACKDOOR_PORT_HB, BACKDOOR_PORT_LB, COMMAND_ERPC};
use crate::decimal::{append_ascii, ascii_chars, decimal_bytes, decimal_spec, signed_decimal_bytes, signed_decimal_spec};
use crate::error::VmwError;
use crate::regs::{HighBandwidthBuf, LowBandwidthBuf};

verus! {

/// Magic value for all enhanced-RPC commands ('RPCI').
pub const RPCI_MAGIC: u32 = 0xC9435052;

/// Magic value for all enhanced-RPC data transfers.
pub const ERPC_DATA_MAGIC: u32 = 0x0001_0000;

/// ERPC subcommand: open.
pub const ERPC_OPEN: u32 = 0x0;

/// ERPC subcommand: send command length.
pub const ERPC_SEND_CMD_LEN: u32 = 0x1;

/// ERPC subcommand: receive reply length.
pub const ERPC_RECV_REPLY_LEN: u32 = 0x3;

/// ERPC subcommand: close.
pub const ERPC_CLOSE: u32 = 0x6;

/// Version reported for an agent that no management tool drives.
pub const TOOLS_VERSION_UNMANAGED: i32 = 0x7fff_ffff;

/// The backdoor command word of an ERPC subcommand.
pub open spec fn erpc_subcommand_spec(subcmd: u32) -> u32 {
    (subcmd << 16u32) | COMMAND_ERPC
}

/// The port word addressing channel `chan_id` for control commands.
pub open spec fn erpc_cmd_channel_spec(chan_id: u32) -> u32 {
    (chan_id & 0xffff_0000u32) | BACKDOOR_PORT_LB
}

/// The port word addressing channel `chan_id` for data transfers.
pub open spec fn erpc_data_channel_spec(chan_id: u32) -> u32 {
    (chan_id & 0xffff_0000u32) | BACKDOOR_PORT_HB
}

/// Format an ERPC subcommand.
fn erpc_subcommand(subcmd: u32) -> (r: u32)
    ensures
        r == erpc_subcommand_spec(subcmd),
{
    (subcmd << 16u32) | COMMAND_ERPC
}

/// Format an ERPC channel for control commands.
fn erpc_cmd_channel(chan_id: u32) -> (r: u32)
    ensures
        r == erpc_cmd_channel_spec(chan_id),
{
    (chan_id & 0xffff_0000u32) | BACKDOOR_PORT_LB
}

/// Format an ERPC channel for data transfer.
fn erpc_data_channel(chan_id: u32) -> (r: u32)
    ensures
        r == erpc_data_channel_spec(chan_id),
{
    (chan_id & 0xffff_0000u32) | BACKDOOR_PORT_HB
}

/// The control and data words of a channel carry the channel number in
/// their upper half and the port in their lower half, so they differ only
/// in the port.
pub proof fn lemma_channel_words(chan_id: u32)
    ensures
        erpc_cmd_channel_spec(chan_id) >> 16u32 == chan_id >> 16u32,
        erpc_data_channel_spec(chan_id) >> 16u32 == chan_id >> 16u32,
        erpc_cmd_channel_spec(chan_id) & 0xffffu32 == 0x5658u32,
        erpc_data_channel_spec(chan_id) & 0xffffu32 == 0x5659u32,
        erpc_cmd_channel_spec(chan_id) ^ erpc_data_channel_spec(chan_id) == 1u32,
{
    assert((((chan_id & 0xffff_0000u32) | 0x5658u32) >> 16u32) == chan_id >> 16u32) by (bit_vector);
    assert((((chan_id & 0xffff_0000u32) | 0x5659u32) >> 16u32) == chan_id >> 16u32) by (bit_vector);
    assert((((chan_id & 0xffff_0000u32) | 0x5658u32) & 0xffffu32) == 0x5658u32) by (bit_vector);
    assert((((chan_id & 0xffff_0000u32) | 0x5659u32) & 0xffffu32) == 0x5659u32) by (bit_vector);
    assert((((chan_id & 0xffff_0000u32) | 0x5658u32) ^ ((chan_id & 0xffff_0000u32) | 0x5659u32))
        == 1u32) by (bit_vector);
}

/// A subcommand word carries the subcommand in its upper half and the ERPC
/// command in its lower half, so distinct subcommands give distinct words.
pub proof fn lemma_subcommand_word(subcmd: u32, other: u32)
    requires
        subcmd < 0x1_0000,
        other < 0x1_0000,
    ensures
        erpc_subcommand_spec(subcmd) >> 16u32 == subcmd,
        erpc_subcommand_spec(subcmd) & 0xffffu32 == 0x1eu32,
        subcmd != other ==> erpc_subcommand_spec(subcmd) != erpc_subcommand_spec(other),
{
    assert((((subcmd << 16u32) | 0x1eu32) >> 16u32) == subcmd) by (bit_vector)
        requires
            subcmd < 0x1_0000u32,
    ;
    assert((((subcmd << 16u32) | 0x1eu32) & 0xffffu32) == 0x1eu32) by (bit_vector);
    assert((((other << 16u32) | 0x1eu32) >> 16u32) == other) by (bit_vector)
        requires
            other < 0x1_0000u32,
    ;
}

/// Identity of an open enhanced-RPC channel: its number and the two
/// cookies that authenticate every call on it.
#[derive(Clone, Copy, Debug, PartialEq, Eq, Structural)]
pub struct ChannelIds {
    pub chan_id: u32,
    pub cookie1: u32,
    pub cookie2: u32,
}

/// The request that opens a channel.
pub open spec fn open_request_spec() -> LowBandwidthBuf {
    LowBandwidthBuf {
        eax: BACKDOOR_MAGIC,
        ebx: RPCI_MAGIC,
        ecx: erpc_subcommand_spec(ERPC_OPEN),
        edx: BACKDOOR_PORT_LB,
        ebp: 0,
        edi: 0,
        esi: 0,
    }
}

/// A low-bandwidth control request on channel `ids`.
pub open spec fn control_request_spec(ids: ChannelIds, ebx: u32, subcmd: u32) -> LowBandwidthBuf {
    LowBandwidthBuf {
        eax: BACKDOOR_MAGIC,
        ebx: ebx,
        ecx: erpc_subcommand_spec(subcmd),
        edx: erpc_cmd_channel_spec(ids.chan_id),
        ebp: 0,
        edi: ids.cookie2,
        esi: ids.cookie1,
    }
}

/// The high-bandwidth request that sends `cmd_len` command bytes; `rsi` is
/// left 0 for the performer to put the address of the command bytes in.
pub open spec fn send_data_request_spec(ids: ChannelIds, cmd_len: u32) -> HighBandwidthBuf {
    HighBandwidthBuf {
        eax: BACKDOOR_MAGIC,
        ebx: ERPC_DATA_MAGIC,
        ecx: cmd_len,
        edx: erpc_data_channel_spec(ids.chan_id),
        ebp: ids.cookie1,
        rdi: ids.cookie2 as u64,
        rsi: 0,
    }
}

/// The high-bandwidth request that receives `reply_len` reply bytes; `rdi`
/// is left 0 for the performer to put the address of the buffer in.
pub open spec fn recv_data_request_spec(ids: ChannelIds, reply_len: u32) -> HighBandwidthBuf {
    HighBandwidthBuf {
        eax: BACKDOOR_MAGIC,
        ebx: ERPC_DATA_MAGIC,
        ecx: reply_len,
        edx: erpc_data_channel_spec(ids.chan_id),
        ebp: ids.cookie2,
        rdi: 0,
        rsi: ids.cookie1 as u64,
    }
}

/// The length word sent for a command: its byte length, truncated to
/// 32 bits.
pub open spec fn command_len_word(command: Seq<u8>) -> u32 {
    command.len() as u32
}

/// Bytes of a command: `prefix`, then `payload`, then a terminating NUL.
pub open spec fn framed_command(prefix: Seq<char>, payload: Seq<u8>) -> Seq<u8> {
    prefix.map_values(|c: char| c as u8) + payload + seq![0u8]
}

/// Bytes of the guestinfo query for `key`.
pub open spec fn guestinfo_command_spec(key: Seq<u8>) -> Seq<u8> {
    framed_command("info-get "@, key)
}

/// Bytes of the log command for the UTF-8 bytes `msg`.
pub open spec fn log_command_spec(msg: Seq<u8>) -> Seq<u8> {
    framed_command("log "@, msg)
}

/// Bytes of the command that reports an unmanaged agent.
pub open spec fn report_agent_command_spec() -> Seq<u8> {
    framed_command("tools.set.version "@, signed_decimal_spec(TOOLS_VERSION_UNMANAGED as int))
}

/// Meaning of a guestinfo reply: too short below two bytes; a first byte
/// `'0'` means the property is not set; otherwise the value follows a
/// one-byte separator.
pub open spec fn guestinfo_reply_spec(reply: Seq<u8>) -> Result<Option<Seq<u8>>, Seq<char>> {
    if reply.len() < 2 {
        Err("reply too short ("@ + ascii_chars(decimal_spec(reply.len())) + " bytes)"@)
    } else if reply[0] == 48u8 {
        Ok(None)
    } else {
        Ok(Some(reply.subrange(2, reply.len() as int)))
    }
}

/// Meaning of a status reply: empty is an error of its own, a first byte
/// `'1'` is success, anything else is the command's `failure`.
pub open spec fn status_reply_spec(reply: Seq<u8>, failure: Seq<char>) -> Result<(), Seq<char>> {
    if reply.len() == 0 {
        Err("empty reply"@)
    } else if reply[0] == 49u8 {
        Ok(())
    } else {
        Err(failure)
    }
}

/// The four calls of an exchange agree with one another: the length that
/// is announced is the length that is sent (the command's byte length,
/// when it fits in 32 bits); every call carries the channel's cookies; the
/// control calls and the data calls address the same channel, through its
/// two ports.
pub proof fn lemma_exchange_calls_agree(ids: ChannelIds, command: Seq<u8>, reply_len: u32)
    ensures
        ({
            let announce = control_request_spec(ids, command_len_word(command), ERPC_SEND_CMD_LEN);
            let send = send_data_request_spec(ids, command_len_word(command));
            let ask = control_request_spec(ids, 0, ERPC_RECV_REPLY_LEN);
            let receive = recv_data_request_spec(ids, reply_len);
            &&& command.len() < 0x1_0000_0000 ==> announce.ebx == command.len()
            &&& announce.ebx == send.ecx
            &&& receive.ecx == reply_len
            &&& announce.esi == ids.cookie1 && ask.esi == ids.cookie1
            &&& announce.edi == ids.cookie2 && ask.edi == ids.cookie2
            &&& send.ebp == ids.cookie1 && send.rdi == ids.cookie2
            &&& receive.ebp == ids.cookie2 && receive.rsi == ids.cookie1
            &&& announce.edx == ask.edx
            &&& send.edx == receive.edx
            &&& announce.edx ^ send.edx == 1u32
        }),
{
    lemma_channel_words(ids.chan_id);
    assert(command.len() < 0x1_0000_0000 ==> command.len() as u32 == command.len());
}

/// The guestinfo query carries the key verbatim between its prefix and its
/// terminating NUL.
pub proof fn lemma_guestinfo_command_holds_key(key: Seq<u8>)
    ensures
        guestinfo_command_spec(key).len() == key.len() + 10,
        guestinfo_command_spec(key).subrange(9, key.len() + 9int) == key,
        guestinfo_command_spec(key).last() == 0u8,
{
    reveal_strlit("info-get ");
    let c = guestinfo_command_spec(key);
    assert(c.subrange(9, key.len() + 9int) =~= key);
}

/// A guestinfo reply of at least two bytes is "not set" exactly when its
/// status byte is `'0'`; otherwise its value is everything after the status
/// byte and the separator, whatever they are.
pub proof fn lemma_guestinfo_reply_value(status: u8, separator: u8, value: Seq<u8>)
    ensures
        status == 48u8 ==> guestinfo_reply_spec(seq![status, separator] + value) == Ok::<
            Option<Seq<u8>>,
            Seq<char>,
        >(None),
        status != 48u8 ==> guestinfo_reply_spec(seq![status, separator] + value) == Ok::<
            Option<Seq<u8>>,
            Seq<char>,
        >(Some(value)),
{
    let reply = seq![status, separator] + value;
    assert(reply.subrange(2, reply.len() as int) =~= value);
}

/// Every request of the enhanced-RPC protocol loads the backdoor magic
/// ('VMXh') in `eax`, the right subcommand in the upper half of `ecx` (with
/// the ERPC command 0x1E below it), the channel number in the upper half of
/// `edx` and the low- or high-bandwidth port in its lower half, and the
/// channel's two full cookies; the length registers carry the given length.
pub proof fn lemma_request_registers(ids: ChannelIds, cmd_len: u32, reply_len: u32)
    ensures
        open_request_spec() == (LowBandwidthBuf {
            eax: 0x564D5868u32,
            ebx: 0xC9435052u32,
            ecx: 0x1Eu32,
            edx: 0x5658u32,
            ebp: 0u32,
            edi: 0u32,
            esi: 0u32,
        }),
        ({
            let close = control_request_spec(ids, 0, ERPC_CLOSE);
            &&& close.eax == 0x564D5868u32 && close.ebx == 0u32 && close.ecx == 0x0006_001Eu32
            &&& close.edx >> 16u32 == ids.chan_id >> 16u32 && close.edx & 0xffffu32 == 0x5658u32
            &&& close.ebp == 0u32 && close.esi == ids.cookie1 && close.edi == ids.cookie2
        }),
        ({
            let announce = control_request_spec(ids, cmd_len, ERPC_SEND_CMD_LEN);
            &&& announce.eax == 0x564D5868u32 && announce.ebx == cmd_len
            &&& announce.ecx == 0x0001_001Eu32
            &&& announce.edx >> 16u32 == ids.chan_id >> 16u32 && announce.edx & 0xffffu32
                == 0x5658u32
            &&& announce.ebp == 0u32 && announce.esi == ids.cookie1 && announce.edi == ids.cookie2
        }),
        ({
            let ask = control_request_spec(ids, 0, ERPC_RECV_REPLY_LEN);
            &&& ask.eax == 0x564D5868u32 && ask.ebx == 0u32 && ask.ecx == 0x0003_001Eu32
            &&& ask.edx >> 16u32 == ids.chan_id >> 16u32 && ask.edx & 0xffffu32 == 0x5658u32
            &&& ask.ebp == 0u32 && ask.esi == ids.cookie1 && ask.edi == ids.cookie2
        }),
        ({
            let send = send_data_request_spec(ids, cmd_len);
            &&& send.eax == 0x564D5868u32 && send.ebx == 0x0001_0000u32 && send.ecx == cmd_len
            &&& send.edx >> 16u32 == ids.chan_id >> 16u32 && send.edx & 0xffffu32 == 0x5659u32
            &&& send.ebp == ids.cookie1 && send.rdi == ids.cookie2 as u64 && send.rsi == 0u64
        }),
        ({
            let receive = recv_data_request_spec(ids, reply_len);
            &&& receive.eax == 0x564D5868u32 && receive.ebx == 0x0001_0000u32
            &&& receive.ecx == reply_len
            &&& receive.edx >> 16u32 == ids.chan_id >> 16u32 && receive.edx & 0xffffu32
                == 0x5659u32
            &&& receive.ebp == ids.cookie2 && receive.rsi == ids.cookie1 as u64 && receive.rdi
                == 0u64
        }),
{
    lemma_channel_words(ids.chan_id);
    assert(((0u32 << 16u32) | 0x1eu32) == 0x1eu32) by (bit_vector);
    assert(((6u32 << 16u32) | 0x1eu32) == 0x0006_001Eu32) by (bit_vector);
    assert(((1u32 << 16u32) | 0x1eu32) == 0x0001_001Eu32) by (bit_vector);
    assert(((3u32 << 16u32) | 0x1eu32) == 0x0003_001Eu32) by (bit_vector);
}

/// The length word of a command is its byte length whenever that fits in
/// 32 bits.
pub proof fn lemma_command_len_word(command: Seq<u8>)
    ensures
        command.len() < 0x1_0000_0000 ==> command_len_word(command) == command.len(),
{
}

/// The guestinfo query for any key is the bytes of `info-get `, then the
/// key, then a NUL.
pub proof fn lemma_guestinfo_command_bytes(key: Seq<u8>)
    ensures
        guestinfo_command_spec(key) == seq![105u8, 110u8, 102u8, 111u8, 45u8, 103u8, 101u8, 116u8, 32u8]
            + key + seq![0u8],
        guestinfo_command_spec(key).subrange(0, 9) == seq![105u8, 110u8, 102u8, 111u8, 45u8, 103u8, 101u8, 116u8, 32u8],
{
    reveal_strlit("info-get ");
    assert("info-get "@.map_values(|c: char| c as u8) =~= seq![105u8, 110u8, 102u8, 111u8, 45u8, 103u8, 101u8, 116u8, 32u8]);
    let c = guestinfo_command_spec(key);
    assert(c.subrange(0, 9) =~= seq![105u8, 110u8, 102u8, 111u8, 45u8, 103u8, 101u8, 116u8, 32u8]);
}

/// The log command for any message is the bytes of `log `, then every
/// byte of the message, then a NUL.
pub proof fn lemma_log_command_bytes(msg: Seq<u8>)
    ensures
        log_command_spec(msg) == seq![108u8, 111u8, 103u8, 32u8] + msg + seq![0u8],
        log_command_spec(msg).len() == msg.len() + 5,
        log_command_spec(msg).subrange(0, 4) == seq![108u8, 111u8, 103u8, 32u8],
        log_command_spec(msg).subrange(4, msg.len() + 4int) == msg,
        log_command_spec(msg).last() == 0u8,
{
    reveal_strlit("log ");
    assert("log "@.map_values(|c: char| c as u8) =~= seq![108u8, 111u8, 103u8, 32u8]);
    let c = log_command_spec(msg);
    assert(c.subrange(0, 4) =~= seq![108u8, 111u8, 103u8, 32u8]);
    assert(c.subrange(4, msg.len() + 4int) =~= msg);
}

/// The agent report is the bytes of `tools.set.version 2147483647`
/// (`i32::MAX` in decimal), then a NUL.
pub proof fn lemma_report_agent_command_bytes()
    ensures
        report_agent_command_spec() == seq![
            116u8, 111u8, 111u8, 108u8, 115u8, 46u8, 115u8, 101u8, 116u8, 46u8, 118u8, 101u8,
            114u8, 115u8, 105u8, 111u8, 110u8, 32u8, 50u8, 49u8, 52u8, 55u8, 52u8, 56u8, 51u8,
            54u8, 52u8, 55u8, 0u8,
        ],
{
    reveal_strlit("tools.set.version ");
    reveal_with_fuel(decimal_spec, 11);
    assert(decimal_spec(2147483647nat) =~= seq![50u8, 49u8, 52u8, 55u8, 52u8, 56u8, 51u8, 54u8, 52u8, 55u8]);
    assert(report_agent_command_spec() =~= seq![
        116u8, 111u8, 111u8, 108u8, 115u8, 46u8, 115u8, 101u8, 116u8, 46u8, 118u8, 101u8,
        114u8, 115u8, 105u8, 111u8, 110u8, 32u8, 50u8, 49u8, 52u8, 55u8, 52u8, 56u8, 51u8,
        54u8, 52u8, 55u8, 0u8,
    ]);
}

/// A status reply succeeds exactly when it is not empty and its first byte
/// is `'1'`; an empty reply is the error "empty reply", and any other
/// (a first byte `'0'` among them) is the command's own failure.
pub proof fn lemma_status_reply_meaning(reply: Seq<u8>, failure: Seq<char>)
    ensures
        status_reply_spec(reply, failure) is Ok <==> (reply.len() > 0 && reply[0] == 49u8),
        reply.len() == 0 ==> status_reply_spec(reply, failure) == Err::<(), Seq<char>>(
            "empty reply"@,
        ),
        reply.len() > 0 && reply[0] != 49u8 ==> status_reply_spec(reply, failure) == Err::<
            (),
            Seq<char>,
        >(failure),
        reply.len() > 0 && reply[0] == 48u8 ==> status_reply_spec(reply, failure) is Err,
{
}

/// A guestinfo reply is an error exactly when it is shorter than two bytes;
/// otherwise it is "not set" exactly when its first byte is `'0'`, and the
/// value is everything after the first two bytes.
pub proof fn lemma_guestinfo_reply_meaning(reply: Seq<u8>)
    ensures
        guestinfo_reply_spec(reply) is Err <==> reply.len() < 2,
        reply.len() >= 2 ==> (guestinfo_reply_spec(reply) == Ok::<Option<Seq<u8>>, Seq<char>>(
            None,
        ) <==> reply[0] == 48u8),
        reply.len() == 0 ==> guestinfo_reply_spec(reply) == Err::<Option<Seq<u8>>, Seq<char>>(
            "reply too short (0 bytes)"@,
        ),
        reply.len() == 1 ==> guestinfo_reply_spec(reply) == Err::<Option<Seq<u8>>, Seq<char>>(
            "reply too short (1 bytes)"@,
        ),
        reply.len() >= 2 && reply[0] != 48u8 ==> guestinfo_reply_spec(reply) == Ok::<
            Option<Seq<u8>>,
            Seq<char>,
        >(Some(reply.subrange(2, reply.len() as int))),
{
    if reply.len() < 2 {
        reveal_strlit("reply too short (");
        reveal_strlit(" bytes)");
        reveal_strlit("reply too short (0 bytes)");
        reveal_strlit("reply too short (1 bytes)");
        let m = "reply too short ("@ + ascii_chars(decimal_spec(reply.len())) + " bytes)"@;
        if reply.len() == 0 {
            assert(m =~= "reply too short (0 bytes)"@);
        } else {
            assert(m =~= "reply too short (1 bytes)"@);
        }
    }
}

/// Copies `src` to the end of `dst`.
fn extend_bytes(dst: &mut Vec<u8>, src: &[u8])
    ensures
        final(dst)@ == old(dst)@ + src@,
{
    let ghost start = dst@;
    let mut i: usize = 0;
    while i < src.len()
        invariant
            0 <= i <= src.len(),
            dst@ == start + src@.subrange(0, i as int),
        decreases src.len() - i,
    {
        dst.push(src[i]);
        i = i + 1;
        assert(dst@ =~= start + src@.subrange(0, i as int));
    }
    assert(src@.subrange(0, src.len() as int) =~= src@);
}

/// Frames a command: the bytes of the ASCII text `prefix`, then `payload`,
/// then a NUL.
fn frame_command(prefix: &str, payload: &[u8]) -> (command: Vec<u8>)
    requires
        prefix.is_ascii(),
    ensures
        command@ == framed_command(prefix@, payload@),
{
    let mut command: Vec<u8> = Vec::new();
    let n = prefix.unicode_len();
    let mut i: usize = 0;
    while i < n
        invariant
            prefix.is_ascii(),
            n == prefix@.len(),
            0 <= i <= n,
            command@ == prefix@.subrange(0, i as int).map_values(|c: char| c as u8),
        decreases n - i,
    {
        let b = prefix.get_ascii(i);
        command.push(b);
        i = i + 1;
        assert(command@ =~= prefix@.subrange(0, i as int).map_values(|c: char| c as u8));
    }
    assert(prefix@.subrange(0, n as int) =~= prefix@);
    extend_bytes(&mut command, payload);
    command.push(0u8);
    assert(command@ =~= framed_command(prefix@, payload@));
    command
}

/// Channel for enhanced-RPC transfers.
///
/// This can be acquired via `BackdoorGuard::open_enhanced_chan`.
#[derive(Debug)]
pub struct EnhancedChan {
    chan_id: u32,
    cookie1: u32,
    cookie2: u32,
}

impl View for EnhancedChan {
    type V = ChannelIds;

    closed spec fn view(&self) -> ChannelIds {
        ChannelIds { chan_id: self.chan_id, cookie1: self.cookie1, cookie2: self.cookie2 }
    }
}

impl EnhancedChan {
    /// Number and cookies of the channel.
    pub fn ids(&self) -> (ids: ChannelIds)
        ensures
            ids == self@,
    {
        ChannelIds { chan_id: self.chan_id, cookie1: self.cookie1, cookie2: self.cookie2 }
    }

    /// Register image of the request that opens a channel.
    pub fn open_request() -> (req: LowBandwidthBuf)
        ensures
            req == open_request_spec(),
    {
        LowBandwidthBuf {
            eax: BACKDOOR_MAGIC,
            ebx: RPCI_MAGIC,
            ecx: erpc_subcommand(ERPC_OPEN),
            edx: BACKDOOR_PORT_LB,
            ebp: 0,
            edi: 0,
            esi: 0,
        }
    }

    /// Open an enhanced-RPC channel, from the reply to the open request:
    /// it failed iff `ecx` is 0; otherwise the channel number is in `edx`
    /// and the cookies in `esi` and `edi`.
    pub fn open(guard: &mut BackdoorGuard, reply: &LowBandwidthBuf) -> (r: Result<EnhancedChan, VmwError>)
        ensures
            *final(guard) == *old(guard),
            r is Ok <==> reply.ecx != 0,
            r matches Ok(ch) ==> ch@ == (ChannelIds {
                chan_id: reply.edx,
                cookie1: reply.esi,
                cookie2: reply.edi,
            }),
            r matches Err(e) ==> e@ == "erpc open failed"@,
    {
        if reply.ecx == 0 {
            return Err(VmwError::new("erpc open failed"));
        }
        Ok(EnhancedChan { chan_id: reply.edx, cookie1: reply.esi, cookie2: reply.edi })
    }

    /// Register image of the request that closes the channel.
    pub fn close_request(&self) -> (req: LowBandwidthBuf)
        ensures
            req == control_request_spec(self@, 0, ERPC_CLOSE),
    {
        LowBandwidthBuf {
            eax: BACKDOOR_MAGIC,
            ebx: 0,
            ecx: erpc_subcommand(ERPC_CLOSE),
            edx: erpc_cmd_channel(self.chan_id),
            esi: self.cookie1,
            edi: self.cookie2,
            ebp: 0,
        }
    }

    /// Outcome of closing the channel, from the reply to the close request.
    fn close_channel(&self, reply: &LowBandwidthBuf) -> (r: Result<(), VmwError>)
        ensures
            r is Ok <==> reply.ecx != 0,
            r matches Err(e) ==> e@ == "erpc close_channel failed"@,
    {
        if reply.ecx == 0 {
            return Err(VmwError::new("erpc close_channel failed"));
        }
        Ok(())
    }

    /// Close the channel, from the reply to the close request.
    ///
    /// On error, this returns back the channel.
    pub fn close(self, reply: &LowBandwidthBuf) -> (r: Result<(), EnhancedChan>)
        ensures
            r is Ok <==> reply.ecx != 0,
            r matches Err(ch) ==> ch == self,
    {
        let erpc = self;
        match erpc.close_channel(reply) {
            Ok(_) => Ok(()),
            Err(_) => Err(erpc),
        }
    }

    /// Register image of the request that announces a command of
    /// `cmd_len` bytes.
    fn send_command_len_request(&self, cmd_len: u32) -> (req: LowBandwidthBuf)
        ensures
            req == control_request_spec(self@, cmd_len, ERPC_SEND_CMD_LEN),
    {
        LowBandwidthBuf {
            eax: BACKDOOR_MAGIC,
            ebx: cmd_len,
            ecx: erpc_subcommand(ERPC_SEND_CMD_LEN),
            edx: erpc_cmd_channel(self.chan_id),
            esi: self.cookie1,
            edi: self.cookie2,
            ebp: 0,
        }
    }

    /// Outcome of announcing the command length.
    fn send_command_len(reply: &LowBandwidthBuf) -> (r: Result<(), VmwError>)
        ensures
            r is Ok <==> reply.ecx != 0,
            r matches Err(e) ==> e@ == "erpc send_command_len failed"@,
    {
        if reply.ecx == 0 {
            return Err(VmwError::new("erpc send_command_len failed"));
        }
        Ok(())
    }

    /// Register image of the request that sends `cmd_len` command bytes.
    fn send_command_data_request(&self, cmd_len: u32) -> (req: HighBandwidthBuf)
        ensures
            req == send_data_request_spec(self@, cmd_len),
    {
        HighBandwidthBuf {
            eax: BACKDOOR_MAGIC,
            ebx: ERPC_DATA_MAGIC,
            ecx: cmd_len,
            edx: erpc_data_channel(self.chan_id),
            ebp: self.cookie1,
            rdi: self.cookie2 as u64,
            rsi: 0,
        }
    }

    /// Outcome of sending the command bytes: failed iff `ebx` is 0.
    fn send_command_data(reply: &HighBandwidthBuf) -> (r: Result<(), VmwError>)
        ensures
            r is Ok <==> reply.ebx != 0,
            r matches Err(e) ==> e@ == "erpc send_command_len failed"@,
    {
        if reply.ebx == 0 {
            return Err(VmwError::new("erpc send_command_len failed"));
        }
        Ok(())
    }

    /// Register image of the request that asks for the reply length.
    fn recv_reply_len_request(&self) -> (req: LowBandwidthBuf)
        ensures
            req == control_request_spec(self@, 0, ERPC_RECV_REPLY_LEN),
    {
        LowBandwidthBuf {
            eax: BACKDOOR_MAGIC,
            ebx: 0,
            ecx: erpc_subcommand(ERPC_RECV_REPLY_LEN),
            edx: erpc_cmd_channel(self.chan_id),
            esi: self.cookie1,
            edi: self.cookie2,
            ebp: 0,
        }
    }

    /// The reply length: failed iff `ecx` is 0, else the length is `ebx`.
    fn recv_reply_len(reply: &LowBandwidthBuf) -> (r: Result<usize, VmwError>)
        ensures
            r is Ok <==> reply.ecx != 0,
            r matches Ok(n) ==> n == reply.ebx,
            r matches Err(e) ==> e@ == "erpc recv_reply_len failed"@,
    {
        if reply.ecx == 0 {
            return Err(VmwError::new("erpc recv_reply_len failed"));
        }
        Ok(reply.ebx as usize)
    }

    /// Register image of the request that receives `reply_len` bytes.
    fn recv_reply_data_request(&self, reply_len: usize) -> (req: HighBandwidthBuf)
        ensures
            req == recv_data_request_spec(self@, reply_len as u32),
    {
        HighBandwidthBuf {
            eax: BACKDOOR_MAGIC,
            ebx: ERPC_DATA_MAGIC,
            ecx: reply_len as u32,
            edx: erpc_data_channel(self.chan_id),
            ebp: self.cookie2,
            rdi: 0,
            rsi: self.cookie1 as u64,
        }
    }

    /// The reply bytes: failed iff `ebx` is 0, else the buffer of
    /// `reply_len` bytes that the reply was received into.
    fn recv_reply_data(reply: &HighBandwidthBuf, reply_len: usize, buf: Vec<u8>) -> (r: Result<Vec<u8>, VmwError>)
        requires
            buf@.len() == reply_len,
        ensures
            r is Ok <==> reply.ebx != 0,
            r matches Ok(data) ==> data@ == buf@ && data@.len() == reply_len,
            r matches Err(e) ==> e@ == "erpc recv_reply_data failed"@,
    {
        if reply.ebx == 0 {
            return Err(VmwError::new("erpc recv_reply_data failed"));
        }
        Ok(buf)
    }
}

impl EnhancedChan {
    /// A private copy of the channel identity, for the steps of an
    /// exchange.
    fn copy(&self) -> (ch: EnhancedChan)
        ensures
            ch@ == self@,
    {
        EnhancedChan { chan_id: self.chan_id, cookie1: self.cookie1, cookie2: self.cookie2 }
    }

    /// Start the exchange that sends `command` on this channel and reads
    /// back the reply.
    fn exchange(&self, command: Vec<u8>) -> (ex: CommandExchange)
        ensures
            ex.channel() == self@,
            ex.command_bytes() == command@,
    {
        CommandExchange { chan: self.copy(), command }
    }

    /// Retrieve a guestinfo property: starts the exchange that sends the
    /// query `info-get <key>`; its reply is read by `guestinfo_reply`.
    pub fn get_guestinfo(&self, key: &[u8]) -> (ex: CommandExchange)
        ensures
            ex.channel() == self@,
            ex.command_bytes() == guestinfo_command_spec(key@),
    {
        proof {
            reveal_strlit("info-get ");
        }
        let command = frame_command("info-get ", key);
        self.exchange(command)
    }

    /// Log a message: starts the exchange that sends `log <msg>`; its reply
    /// is read by `log_reply`.
    pub fn log(&self, msg: &str) -> (ex: CommandExchange)
        ensures
            ex.channel() == self@,
            ex.command_bytes() == log_command_spec(msg.spec_bytes()),
    {
        proof {
            reveal_strlit("log ");
        }
        let command = frame_command("log ", msg.as_bytes());
        self.exchange(command)
    }

    /// Report agent (unmanaged) type: starts the exchange that sends
    /// `tools.set.version <i32::MAX>`; its reply is read by
    /// `report_agent_reply`.
    pub fn report_agent(&self) -> (ex: CommandExchange)
        ensures
            ex.channel() == self@,
            ex.command_bytes() == report_agent_command_spec(),
    {
        proof {
            reveal_strlit("tools.set.version ");
        }
        let version = signed_decimal_bytes(TOOLS_VERSION_UNMANAGED);
        let command = frame_command("tools.set.version ", version.as_slice());
        self.exchange(command)
    }

    /// The guestinfo property from the reply to its query: `None` when the
    /// property is not set, else the value after the status byte and its
    /// separator.
    pub fn guestinfo_reply(reply: Vec<u8>) -> (r: Result<Option<Vec<u8>>, VmwError>)
        ensures
            (match guestinfo_reply_spec(reply@) {
                Ok(None) => r matches Ok(None),
                Ok(Some(v)) => r matches Ok(Some(w)) && w@ == v,
                Err(m) => r matches Err(e) && e@ == m,
            }),
    {
        let mut buf = reply;
        if buf.len() < 2 {
            let mut msg = String::from_str("reply too short (");
            let digits = decimal_bytes(buf.len() as u64);
            append_ascii(&mut msg, digits.as_slice());
            msg.append(" bytes)");
            return Err(VmwError::from_string(msg));
        }
        let ghost whole = buf@;
        if buf.remove(0) == 48u8 {
            Ok(None)
        } else {
            // Strip whitespace separator.
            buf.remove(0);
            assert(buf@ =~= whole.subrange(2, whole.len() as int));
            Ok(Some(buf))
        }
    }

    /// Outcome of a status reply whose failure is reported as `failure`.
    fn status_reply(reply: &[u8], failure: &str) -> (r: Result<(), VmwError>)
        ensures
            (match status_reply_spec(reply@, failure@) {
                Ok(()) => r is Ok,
                Err(m) => r matches Err(e) && e@ == m,
            }),
    {
        if reply.len() == 0 {
            return Err(VmwError::new("empty reply"));
        }
        if reply[0] == 49u8 {
            Ok(())
        } else {
            Err(VmwError::new(failure))
        }
    }

    /// Outcome of the log command, from its reply.
    pub fn log_reply(reply: &[u8]) -> (r: Result<(), VmwError>)
        ensures
            (match status_reply_spec(reply@, "erpc log failed"@) {
                Ok(()) => r is Ok,
                Err(m) => r matches Err(e) && e@ == m,
            }),
    {
        Self::status_reply(reply, "erpc log failed")
    }

    /// Outcome of the agent report, from its reply.
    pub fn report_agent_reply(reply: &[u8]) -> (r: Result<(), VmwError>)
        ensures
            (match status_reply_spec(reply@, "erpc tools.set.version failed"@) {
                Ok(()) => r is Ok,
                Err(m) => r matches Err(e) && e@ == m,
            }),
    {
        Self::status_reply(reply, "erpc tools.set.version failed")
    }
}

/// An exchange that has to announce the length of its command: the first
/// of the four backdoor calls that send a command and read its reply.
#[derive(Debug)]
pub struct CommandExchange {
    chan: EnhancedChan,
    command: Vec<u8>,
}

/// An exchange that has to send the bytes of its command.
#[derive(Debug)]
pub struct CommandDataExchange {
    chan: EnhancedChan,
    command: Vec<u8>,
}

/// An exchange whose command went through and that has to ask for the
/// length of the reply.
#[derive(Debug)]
pub struct ReplyLenExchange {
    chan: EnhancedChan,
}

/// An exchange that has to receive the bytes of the reply.
#[derive(Debug)]
pub struct ReplyDataExchange {
    chan: EnhancedChan,
    reply_len: usize,
}

impl CommandExchange {
    /// The channel of the exchange.
    pub closed spec fn channel(&self) -> ChannelIds {
        self.chan@
    }

    /// The command of the exchange.
    pub closed spec fn command_bytes(&self) -> Seq<u8> {
        self.command@
    }

    /// The command bytes.
    pub fn command(&self) -> (c: &[u8])
        ensures
            c@ == self.command_bytes(),
    {
        self.command.as_slice()
    }

    /// Register image of the call to perform: announce the command length.
    pub fn request(&self) -> (req: LowBandwidthBuf)
        ensures
            req == control_request_spec(
                self.channel(),
                command_len_word(self.command_bytes()),
                ERPC_SEND_CMD_LEN,
            ),
    {
        #[verifier::truncate]
        let cmd_len: u32 = self.command.len() as u32;
        self.chan.send_command_len_request(cmd_len)
    }

    /// Next step, from the registers that the call returned: the command
    /// bytes are sent next, unless the host refused the length.
    pub fn advance(self, reply: &LowBandwidthBuf) -> (r: Result<CommandDataExchange, VmwError>)
        ensures
            r is Ok <==> reply.ecx != 0,
            r matches Ok(next) ==> next.channel() == self.channel() && next.command_bytes()
                == self.command_bytes(),
            r matches Err(e) ==> e@ == "erpc send_command_len failed"@,
    {
        match EnhancedChan::send_command_len(reply) {
            Ok(()) => Ok(CommandDataExchange { chan: self.chan, command: self.command }),
            Err(e) => Err(e),
        }
    }
}

impl CommandDataExchange {
    /// The channel of the exchange.
    pub closed spec fn channel(&self) -> ChannelIds {
        self.chan@
    }

    /// The command of the exchange.
    pub closed spec fn command_bytes(&self) -> Seq<u8> {
        self.command@
    }

    /// The command bytes, whose address goes in `rsi` of the request.
    pub fn command(&self) -> (c: &[u8])
        ensures
            c@ == self.command_bytes(),
    {
        self.command.as_slice()
    }

    /// Register image of the call to perform: send the command bytes. The
    /// performer puts the address of `command()` in `rsi`.
    pub fn request(&self) -> (req: HighBandwidthBuf)
        ensures
            req == send_data_request_spec(self.channel(), command_len_word(self.command_bytes())),
    {
        #[verifier::truncate]
        let cmd_len: u32 = self.command.len() as u32;
        self.chan.send_command_data_request(cmd_len)
    }

    /// Next step, from the registers that the call returned: the reply
    /// length is asked next, unless the host refused the data.
    pub fn advance(self, reply: &HighBandwidthBuf) -> (r: Result<ReplyLenExchange, VmwError>)
        ensures
            r is Ok <==> reply.ebx != 0,
            r matches Ok(next) ==> next.channel() == self.channel(),
            r matches Err(e) ==> e@ == "erpc send_command_len failed"@,
    {
        match EnhancedChan::send_command_data(reply) {
            Ok(()) => Ok(ReplyLenExchange { chan: self.chan }),
            Err(e) => Err(e),
        }
    }
}

impl ReplyLenExchange {
    /// The channel of the exchange.
    pub closed spec fn channel(&self) -> ChannelIds {
        self.chan@
    }

    /// Register image of the call to perform: ask for the reply length.
    pub fn request(&self) -> (req: LowBandwidthBuf)
        ensures
            req == control_request_spec(self.channel(), 0, ERPC_RECV_REPLY_LEN),
    {
        self.chan.recv_reply_len_request()
    }

    /// Next step, from the registers that the call returned: the reply
    /// bytes, as many as the host announced in `ebx`, are received next,
    /// unless the host failed.
    pub fn advance(self, reply: &LowBandwidthBuf) -> (r: Result<ReplyDataExchange, VmwError>)
        ensures
            r is Ok <==> reply.ecx != 0,
            r matches Ok(next) ==> next.channel() == self.channel() && next.reply_length()
                == reply.ebx,
            r matches Err(e) ==> e@ == "erpc recv_reply_len failed"@,
    {
        match EnhancedChan::recv_reply_len(reply) {
            Ok(n) => Ok(ReplyDataExchange { chan: self.chan, reply_len: n }),
            Err(e) => Err(e),
        }
    }
}

impl ReplyDataExchange {
    /// The channel of the exchange.
    pub closed spec fn channel(&self) -> ChannelIds {
        self.chan@
    }

    /// The announced reply length.
    pub closed spec fn reply_length(&self) -> nat {
        self.reply_len as nat
    }

    /// The announced reply length.
    pub fn reply_len(&self) -> (n: usize)
        ensures
            n == self.reply_length(),
    {
        self.reply_len
    }

    /// A zeroed buffer of the announced reply length, for the reply bytes.
    pub fn buffer(&self) -> (buf: Vec<u8>)
        ensures
            buf@.len() == self.reply_length(),
            forall|i: int| 0 <= i < buf@.len() ==> buf@[i] == 0u8,
    {
        vec![0u8; self.reply_len]
    }

    /// Register image of the call to perform: receive the reply bytes. The
    /// performer puts the address of the buffer in `rdi`.
    pub fn request(&self) -> (req: HighBandwidthBuf)
        ensures
            req == recv_data_request_spec(self.channel(), self.reply_length() as u32),
    {
        self.chan.recv_reply_data_request(self.reply_len)
    }

    /// Last step, from the registers that the call returned and the buffer
    /// of the announced length (made by `buffer`) that the reply bytes were
    /// received into: the reply, unless the host failed.
    pub fn advance(self, reply: &HighBandwidthBuf, buf: Vec<u8>) -> (r: Result<Vec<u8>, VmwError>)
        requires
            buf@.len() == self.reply_length(),
        ensures
            r is Ok <==> reply.ebx != 0,
            r matches Ok(data) ==> data@ == buf@ && data@.len() == self.reply_length(),
            r matches Err(e) ==> e@ == "erpc recv_reply_data failed"@,
    {
        EnhancedChan::recv_reply_data(reply, self.reply_len, buf)
    }
}

} // verus!
