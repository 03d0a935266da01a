use lib::bluetooth::{
    adv_data_command, adv_enable_command, event_mask_command, local_name_command, reset_command,
    scan_enable_command, scan_params_command, BdAddr, BluetoothController, BtError, BtTransport,
    HciPacketType,
};
use lib::ethernet::{mac_from, EthError, EthInit, EthStep, EthernetController};
use lib::mmio::MmioOp;
use lib::wifi::{
    parse_access_point, Ssid, WifiAccessPoint, WifiConfig, WifiController, WifiError, WifiInit,
    WifiSecurity, WifiStep,
};

fn params(prefix: &[u8]) -> [u8; 16] {
    let mut p = [0u8; 16];
    p[..prefix.len()].copy_from_slice(prefix);
    p
}

#[test]
fn hci_commands() {
    let c = reset_command();
    assert_eq!((c.opcode, c.params, c.param_len), (0x0C03, [0u8; 16], 0));
    let c = event_mask_command();
    assert_eq!(c.opcode, 0x0C01);
    assert_eq!(c.params, params(&[0xFF, 0xFF, 0xFF, 0xFF, 0xFF, 0xFF, 0xFF, 0x3F]));
    assert_eq!(c.param_len, 8);
    let c = local_name_command(b"rustos");
    assert_eq!((c.opcode, c.params, c.param_len), (0x0C13, params(b"rustos"), 6));
    let c = adv_enable_command(true);
    assert_eq!((c.opcode, c.params, c.param_len), (0x200A, params(&[1]), 1));
    let c = adv_data_command(&[2, 1, 6]);
    assert_eq!((c.opcode, c.params, c.param_len), (0x2008, params(&[3, 2, 1, 6]), 4));
    let c = scan_enable_command(true, true);
    assert_eq!((c.opcode, c.params, c.param_len), (0x200C, params(&[1, 0]), 2));
    let c = scan_enable_command(false, false);
    assert_eq!(c.params, params(&[0, 1]));
    let c = scan_params_command();
    assert_eq!((c.opcode, c.params, c.param_len), (0x200B, params(&[1, 0x30, 0, 0x30, 0, 0, 0]), 7));
    assert_eq!(HciPacketType::Command.value(), 1);
    assert_eq!(HciPacketType::Event.value(), 4);
    assert_eq!(HciPacketType::IsoData.value(), 5);
    assert_eq!(BdAddr::from_bytes(&[1, 2, 3, 4, 5, 6]).0, [1, 2, 3, 4, 5, 6]);
}

#[test]
fn bluetooth_controller_outcomes() {
    let mut bt = BluetoothController::new(BtTransport::Virtual);
    assert_eq!(bt.init(), Ok(()));
    assert_eq!(bt.reset(), Ok(()));
    assert_eq!(bt.set_event_mask(), Ok(()));
    assert_eq!(bt.write_local_name(b"os"), Ok(()));
    assert_eq!(bt.le_set_advertising_enable(true), Ok(()));
    assert_eq!(bt.le_set_advertising_data(&[1, 2]), Ok(()));
    assert_eq!(bt.le_scan(true, false), Ok(()));
    assert_eq!(bt.set_scan_params(), Ok(()));
    assert_eq!(bt.send_hci_cmd(&reset_command()), Ok(()));
    assert_eq!(bt.create_connection(&BdAddr([0; 6])), Err(BtError::ConnectionFailed));
    assert_eq!(bt.disconnect(0x13), Ok(()));
    let usb = BluetoothController::new(BtTransport::Usb);
    assert_eq!(usb.reset(), Err(BtError::HciInitFailed));
    assert_eq!(usb.le_scan(true, true), Err(BtError::HciInitFailed));
}

fn wifi_bring_up(w: &mut WifiController, vendor: u32, fw: u32) -> Result<(), WifiError> {
    let mut st = WifiInit::Start;
    let mut v = 0u32;
    for _ in 0..100 {
        match w.init(&mut st, v) {
            WifiStep::Run(ops) => {
                for op in ops {
                    match op {
                        MmioOp::Read16(0x00) => v = vendor,
                        MmioOp::Read32(0x04) => v = 1,
                        MmioOp::Read32(0x08) => v = fw,
                        _ => {}
                    }
                }
            }
            WifiStep::Done(r) => return r,
        }
    }
    panic!("bring-up did not end");
}

#[test]
fn wifi_bring_up_and_scan() {
    let mut w = WifiController::new();
    assert_eq!(w.scan(), Err(WifiError::InitFailed));
    assert_eq!(wifi_bring_up(&mut w, 0xFFFF, 0), Err(WifiError::NotFound));
    assert_eq!(wifi_bring_up(&mut w, 0x8086, 0x1), Ok(()));
    assert_eq!(w.scan(), Ok(MmioOp::Write32(0x10, 0x01)));
    assert!(WifiController::scan_done(0x0));
    assert!(!WifiController::scan_done(0x1));
    assert_eq!(WifiController::scan_outcome(true), Ok(()));
    assert_eq!(WifiController::scan_outcome(false), Err(WifiError::ScanFailed));
    assert_eq!(WifiController::record_base(2), 0x160);
}

fn record(name: &[u8], channel: u8, rssi: u8, security: u8, rate: u16) -> Vec<u8> {
    let mut r = vec![0u8; 44];
    r[..name.len()].copy_from_slice(name);
    r[32..38].copy_from_slice(&[0xAA, 0xBB, 0xCC, 0xDD, 0xEE, 0xFF]);
    r[38] = channel;
    r[39] = rssi;
    r[40] = security;
    r[42..44].copy_from_slice(&rate.to_le_bytes());
    r
}

#[test]
fn wifi_scan_records() {
    let ap = parse_access_point(&record(b"home", 6, 0xC4, 3, 866), 0);
    assert_eq!(&ap.ssid.0[..5], b"home\0");
    assert_eq!(ap.bssid, [0xAA, 0xBB, 0xCC, 0xDD, 0xEE, 0xFF]);
    assert_eq!(ap.channel, 6);
    assert_eq!(ap.rssi, -60);
    assert_eq!(ap.security, WifiSecurity::Wpa2Psk);
    assert_eq!(ap.max_rate_mbps, 866);
    assert_eq!(WifiSecurity::from_code(7), WifiSecurity::Wpa2Psk);
    assert_eq!(WifiSecurity::from_code(1), WifiSecurity::Wep);
    assert_eq!(WifiSecurity::Wpa3Sae.code(), 4);

    let w = WifiController::new();
    let mut records = record(b"a", 1, 0, 0, 54);
    records.extend(record(b"b", 11, 0, 2, 150));
    records.extend(record(b"c", 36, 0, 1, 300));
    let blank = ap;
    let mut results = [blank; 2];
    assert_eq!(w.scan_results(3, &records, &mut results), 2);
    assert_eq!(results[0].channel, 1);
    assert_eq!(results[0].security, WifiSecurity::Open);
    assert_eq!(results[1].channel, 11);
    assert_eq!(results[1].security, WifiSecurity::WpaPsk);
    let mut more: [WifiAccessPoint; 4] = [blank; 4];
    assert_eq!(w.scan_results(1, &records, &mut more), 1);
    assert_eq!(more[1].channel, 6);
}

#[test]
fn wifi_connect_and_frames() {
    let mut w = WifiController::new();
    let mut password = [0u8; 64];
    password[..2].copy_from_slice(b"pw");
    let config = WifiConfig { ssid: Ssid::from_bytes(b"home"), password, password_len: 2, security: WifiSecurity::Wpa2Psk };
    let ops = w.connect(&config);
    assert_eq!(ops.len(), 38);
    assert_eq!(ops[0], MmioOp::Write8(0x200, b'h'));
    assert_eq!(ops[4], MmioOp::Write8(0x204, 0));
    assert_eq!(ops[32], MmioOp::Write8(0x220, 4));
    assert_eq!(ops[33], MmioOp::Write8(0x221, b'p'));
    assert_eq!(ops[35], MmioOp::Write8(0x223, 2));
    assert_eq!(ops[36], MmioOp::Write8(0x264, 3));
    assert_eq!(ops[37], MmioOp::Write32(0x18, 0x01));
    assert_eq!(WifiController::connect_status(0x1), Some(true));
    assert_eq!(WifiController::connect_status(0x2), Some(false));
    assert_eq!(WifiController::connect_status(0x0), None);
    assert_eq!(WifiController::connect_failed(), Err(WifiError::AuthFailed));
    assert_eq!(w.send_frame(&[1, 2]), Err(WifiError::Disconnected));
    assert_eq!(w.associate([1, 2, 3, 4, 5, 6], 11), Ok(()));
    assert_eq!(
        w.send_frame(&[9, 8]),
        Ok(vec![MmioOp::Write8(0x300, 9), MmioOp::Write8(0x301, 8), MmioOp::Write16(0x300 + 1500, 2), MmioOp::Write32(0x24, 0x01)])
    );
    assert_eq!(w.send_frame(&vec![0u8; 2000]).unwrap().len(), 1502);
    assert_eq!(w.disconnect(), MmioOp::Write32(0x20, 0x01));
    assert_eq!(w.send_frame(&[1]), Err(WifiError::Disconnected));
    assert!(WifiController::frame_ready(1));
    let mut buf = [0u8; 3];
    assert_eq!(w.receive_frame(5, &[1, 2, 3, 4, 5], &mut buf), 3);
    assert_eq!(buf, [1, 2, 3]);
    let mut buf = [7u8; 4];
    assert_eq!(w.receive_frame(2, &[5, 6], &mut buf), 2);
    assert_eq!(buf, [5, 6, 7, 7]);
    assert_eq!(Ssid::from_bytes(&[b'x'; 40]).0, [b'x'; 32]);
}

#[test]
fn ethernet_bring_up_reads_mac() {
    let mut e = EthernetController::new();
    let mut st = EthInit::Start;
    let mut reads: Vec<u32> = Vec::new();
    let result;
    loop {
        match e.init(&mut st, &reads) {
            EthStep::Run(ops) => {
                reads = Vec::new();
                for op in ops {
                    match op {
                        MmioOp::Read16(0x00) => reads.push(0x10EC),
                        MmioOp::Read16(0x02) => reads.push(0x8139),
                        MmioOp::Read32(0x00) => reads.push(0x5634_1200),
                        MmioOp::Read16(0x04) => reads.push(0x9A78),
                        MmioOp::Read8(0x08) => reads.push(0),
                        MmioOp::Read8(_) | MmioOp::Read16(_) | MmioOp::Read32(_) | MmioOp::Read64(_) => reads.push(0),
                        _ => {}
                    }
                }
            }
            EthStep::Done(r) => {
                result = r;
                break;
            }
        }
    }
    assert_eq!(result, Ok(()));
    assert_eq!(e.mac(), [0x00, 0x12, 0x34, 0x56, 0x78, 0x9A]);
    assert_eq!(mac_from(0x5634_1200, 0x9A78), [0x00, 0x12, 0x34, 0x56, 0x78, 0x9A]);
}

#[test]
fn ethernet_link_and_packets() {
    assert!(EthernetController::link_status(0x01));
    assert!(!EthernetController::link_status(0x02));
    assert_eq!(EthernetController::speed(0b0000), 10);
    assert_eq!(EthernetController::speed(0b0100), 100);
    assert_eq!(EthernetController::speed(0b1000), 1000);
    assert_eq!(EthernetController::speed(0b1100), 0);
    let mut e = EthernetController::new();
    // the link is never marked up, so sending always reports it down
    assert!(matches!(e.send_packet(64), Err(EthError::LinkDown)));
    assert_eq!(e.tx_descriptor(), 0);
    assert_eq!(EthernetController::rx_ready(0x0040), None);
    assert_eq!(EthernetController::rx_ready(0x8040), Some(0x40));
    assert!(e.receive_packet(0x0010, &[]).is_none());
    let (p, op) = e.receive_packet(0x8003, &[7, 8, 9, 10]).unwrap();
    assert_eq!(p.len, 3);
    assert_eq!(&p.data[..4], &[7, 8, 9, 0]);
    assert_eq!(op, MmioOp::Write16(12, 0));
    assert_eq!(e.rx_descriptor(), 16);
    let (_, op) = e.receive_packet(0x8000, &[]).unwrap();
    assert_eq!(op, MmioOp::Write16(16 + 12, 0));
}

#[test]
fn wifi_scan_and_connect_polls() {
    assert_eq!(WifiController::scan_poll(0, 0x01), None);
    assert_eq!(WifiController::scan_poll(0, 0x00), Some(Ok(())));
    assert_eq!(WifiController::scan_poll(49_999, 0x01), Some(Err(WifiError::ScanFailed)));
    assert_eq!(WifiController::connect_poll(0, 0x00), None);
    assert_eq!(WifiController::connect_poll(0, 0x01), Some(true));
    assert_eq!(WifiController::connect_poll(0, 0x02), Some(false));
    assert_eq!(WifiController::connect_poll(99_999, 0x00), Some(false));
}
