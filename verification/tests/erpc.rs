use vmw_backdoor::{
    access_backdoor, EnhancedChan, HighBandwidthBuf, LowBandwidthBuf, BACKDOOR_MAGIC,
    ERPC_DATA_MAGIC, RPCI_MAGIC, TOOLS_VERSION_UNMANAGED,
};

fn low(eax: u32, ebx: u32, ecx: u32, edx: u32, ebp: u32, edi: u32, esi: u32) -> LowBandwidthBuf {
    LowBandwidthBuf { eax, ebx, ecx, edx, ebp, edi, esi }
}

fn high_status(ebx: u32) -> HighBandwidthBuf {
    HighBandwidthBuf { eax: 0, ebx, ecx: 0, edx: 0, ebp: 0, rdi: 0, rsi: 0 }
}

fn open_chan() -> EnhancedChan {
    let mut guard = access_backdoor().unwrap();
    guard.open_enhanced_chan(&low(0, 0, 1, 0x0003_0000, 0, 0xBBBB, 0xAAAA)).unwrap()
}

#[test]
fn open_request_image() {
    let req = EnhancedChan::open_request();
    assert_eq!(req, low(BACKDOOR_MAGIC, RPCI_MAGIC, 0x1E, 0x5658, 0, 0, 0));
}

#[test]
fn open_reads_channel_and_cookies() {
    let chan = open_chan();
    let ids = chan.ids();
    assert_eq!(ids.chan_id, 0x0003_0000);
    assert_eq!(ids.cookie1, 0xAAAA);
    assert_eq!(ids.cookie2, 0xBBBB);
}

#[test]
fn open_fails_on_zero_ecx() {
    let mut guard = access_backdoor().unwrap();
    let e = EnhancedChan::open(&mut guard, &low(0, 0, 0, 5, 0, 0, 0)).unwrap_err();
    assert_eq!(e.message(), "erpc open failed");
}

#[test]
fn close_request_and_outcomes() {
    let chan = open_chan();
    let req = chan.close_request();
    assert_eq!(req, low(BACKDOOR_MAGIC, 0, 0x0006_001E, 0x0003_5658, 0, 0xBBBB, 0xAAAA));
    let chan = chan.close(&low(0, 0, 0, 0, 0, 0, 0)).unwrap_err();
    assert_eq!(chan.ids().chan_id, 0x0003_0000);
    assert!(chan.close(&low(0, 0, 1, 0, 0, 0, 0)).is_ok());
}

#[test]
fn guestinfo_exchange_steps() {
    let chan = open_chan();
    let ex = chan.get_guestinfo(b"key");
    assert_eq!(ex.command(), b"info-get key\0");
    assert_eq!(ex.request(), low(BACKDOOR_MAGIC, 13, 0x0001_001E, 0x0003_5658, 0, 0xBBBB, 0xAAAA));
    let ex = ex.advance(&low(0, 0, 1, 0, 0, 0, 0)).unwrap();
    assert_eq!(ex.command(), b"info-get key\0");
    assert_eq!(
        ex.request(),
        HighBandwidthBuf {
            eax: BACKDOOR_MAGIC,
            ebx: ERPC_DATA_MAGIC,
            ecx: 13,
            edx: 0x0003_5659,
            ebp: 0xAAAA,
            rdi: 0xBBBB,
            rsi: 0
        }
    );
    let ex = ex.advance(&high_status(1)).unwrap();
    assert_eq!(ex.request(), low(BACKDOOR_MAGIC, 0, 0x0003_001E, 0x0003_5658, 0, 0xBBBB, 0xAAAA));
    let ex = ex.advance(&low(0, 7, 1, 0, 0, 0, 0)).unwrap();
    assert_eq!(ex.reply_len(), 7);
    assert_eq!(ex.buffer(), vec![0u8; 7]);
    assert_eq!(
        ex.request(),
        HighBandwidthBuf {
            eax: BACKDOOR_MAGIC,
            ebx: ERPC_DATA_MAGIC,
            ecx: 7,
            edx: 0x0003_5659,
            ebp: 0xBBBB,
            rdi: 0,
            rsi: 0xAAAA
        }
    );
    let reply = ex.advance(&high_status(1), b"1 value".to_vec()).unwrap();
    assert_eq!(reply, b"1 value".to_vec());
    assert_eq!(EnhancedChan::guestinfo_reply(reply).unwrap(), Some(b"value".to_vec()));
}

#[test]
fn exchange_failures() {
    let chan = open_chan();
    let e = chan.log("x").advance(&low(0, 0, 0, 0, 0, 0, 0)).unwrap_err();
    assert_eq!(e.message(), "erpc send_command_len failed");
    let ex = chan.log("x").advance(&low(0, 0, 1, 0, 0, 0, 0)).unwrap();
    let e = ex.advance(&high_status(0)).unwrap_err();
    assert_eq!(e.message(), "erpc send_command_len failed");
    let ex = chan.log("x").advance(&low(0, 0, 1, 0, 0, 0, 0)).unwrap();
    let ex = ex.advance(&high_status(1)).unwrap();
    let e = ex.advance(&low(0, 4, 0, 0, 0, 0, 0)).unwrap_err();
    assert_eq!(e.message(), "erpc recv_reply_len failed");
    let ex = chan.log("x").advance(&low(0, 0, 1, 0, 0, 0, 0)).unwrap();
    let ex = ex.advance(&high_status(1)).unwrap().advance(&low(0, 1, 1, 0, 0, 0, 0)).unwrap();
    let e = ex.advance(&high_status(0), vec![b'1']).unwrap_err();
    assert_eq!(e.message(), "erpc recv_reply_data failed");
}

#[test]
fn guestinfo_reply_cases() {
    assert_eq!(EnhancedChan::guestinfo_reply(b"0 ".to_vec()).unwrap(), None);
    assert_eq!(EnhancedChan::guestinfo_reply(b"0 anything".to_vec()).unwrap(), None);
    assert_eq!(EnhancedChan::guestinfo_reply(b"1 ".to_vec()).unwrap(), Some(vec![]));
    assert_eq!(EnhancedChan::guestinfo_reply(b"1 abc".to_vec()).unwrap(), Some(b"abc".to_vec()));
    let e = EnhancedChan::guestinfo_reply(b"1".to_vec()).unwrap_err();
    assert_eq!(e.message(), "reply too short (1 bytes)");
    let e = EnhancedChan::guestinfo_reply(vec![]).unwrap_err();
    assert_eq!(e.message(), "reply too short (0 bytes)");
}

#[test]
fn log_command_and_replies() {
    let chan = open_chan();
    assert_eq!(chan.log("hello").command(), b"log hello\0");
    assert_eq!(chan.log("é").command(), &[b'l', b'o', b'g', b' ', 0xC3, 0xA9, 0][..]);
    assert!(EnhancedChan::log_reply(b"1").is_ok());
    assert_eq!(EnhancedChan::log_reply(b"0 x").unwrap_err().message(), "erpc log failed");
    assert_eq!(EnhancedChan::log_reply(b"").unwrap_err().message(), "empty reply");
}

#[test]
fn report_agent_command_and_replies() {
    let chan = open_chan();
    assert_eq!(TOOLS_VERSION_UNMANAGED, i32::MAX);
    assert_eq!(chan.report_agent().command(), b"tools.set.version 2147483647\0");
    assert!(EnhancedChan::report_agent_reply(b"1 ").is_ok());
    assert_eq!(
        EnhancedChan::report_agent_reply(b"0").unwrap_err().message(),
        "erpc tools.set.version failed"
    );
    assert_eq!(EnhancedChan::report_agent_reply(b"").unwrap_err().message(), "empty reply");
}

#[test]
fn channel_words_differ_only_in_port() {
    let chan = open_chan();
    let close = chan.close_request();
    let send = chan.get_guestinfo(b"").advance(&low(0, 0, 1, 0, 0, 0, 0)).unwrap().request();
    assert_eq!(close.edx >> 16, 0x0003);
    assert_eq!(send.edx >> 16, 0x0003);
    assert_eq!(close.edx ^ send.edx, 1);
}
