//! Verified core of the VMware host-guest ("VMXh backdoor") protocol.
//!
//! The guest talks to the hypervisor by loading magic values into CPU
//! registers and touching a pair of I/O ports. This crate holds the part of
//! that protocol that is pure logic: the register images of every request,
//! the checks on every reply, the framing of enhanced-RPC commands and the
//! interpretation of their replies. Performing the port I/O itself (and
//! raising the I/O privilege level) is left to the caller, which hands the
//! registers and bytes that came back to the functions of this crate.

mod backdoor;
mod cpu;
mod decimal;
mod erpc;
mod error;
mod regs;

pub use decimal::{
    append_ascii, ascii_chars, decimal_bytes, decimal_spec, digit_byte, digits_value,
    is_digit_byte, lemma_ascii_chars, lemma_decimal_round_trip, lemma_signed_decimal_round_trip, signed_decimal_bytes, signed_decimal_spec,
};
pub use cpu::{
    hypervisor_present, is_vmware_cpu, lemma_cpuid_encoding, is_vmware_vendor, le_bytes_spec, vendor_label_spec, vmware_label,
    CPUID_HYPERVISOR_BIT,
};
pub use erpc::{
    command_len_word, control_request_spec, framed_command, guestinfo_command_spec,
    guestinfo_reply_spec, lemma_channel_words, lemma_exchange_calls_agree,
    lemma_guestinfo_command_holds_key, lemma_guestinfo_reply_value, lemma_subcommand_word,
    lemma_command_len_word, lemma_guestinfo_command_bytes, lemma_guestinfo_reply_meaning,
    lemma_log_command_bytes, lemma_report_agent_command_bytes, lemma_request_registers,
    lemma_status_reply_meaning, log_command_spec,
    erpc_cmd_channel_spec, erpc_data_channel_spec, erpc_subcommand_spec, open_request_spec,
    recv_data_request_spec, report_agent_command_spec, send_data_request_spec, status_reply_spec,
    ChannelIds, CommandDataExchange, CommandExchange, EnhancedChan, ReplyDataExchange,
    ReplyLenExchange, ERPC_CLOSE, ERPC_DATA_MAGIC, ERPC_OPEN, ERPC_RECV_REPLY_LEN,
    ERPC_SEND_CMD_LEN, RPCI_MAGIC, TOOLS_VERSION_UNMANAGED,
};
pub use error::{lemma_from_string_message, VmwError};
pub use regs::{lemma_zeroed_images, zeroed_high_bandwidth, zeroed_low_bandwidth, HighBandwidthBuf, LowBandwidthBuf};
pub use backdoor::{
    access_backdoor, access_backdoor_privileged, be_word_of_tag, get_version_request_spec,
    iopl_error_message, lemma_get_version_request_registers, lemma_iopl_error_message_parts,
    lemma_magic_spells_vmxh, lemma_plain_guard_lowers_only_on_request,
    lemma_privileged_guard_lowers_once, ends_lowered, lowering_calls, release_access_spec,
    probe_failure_owes_lowering, privileged_probe_request, probe_backdoor,
    probe_backdoor_privileged,
    BackdoorGuard, BACKDOOR_MAGIC, BACKDOOR_PORT_HB, BACKDOOR_PORT_LB, COMMAND_ERPC,
    COMMAND_GET_VERSION,
};
