use std::collections::HashMap;

use lib::mmio::MmioOp;
use lib::usb_device::{
    EndpointConfig, EndpointDir, SetupPacket, SetupRequest, TransferType, UdcError, UdcInit, UdcStep,
    UsbDeviceController, UsbDeviceDescriptor,
};
use lib::usb_host::{
    HostControllerType, HostError, HostInit, HostStep, UsbHostController, UsbSetupPacket, UsbSpeed,
};
use lib::usb_hub::{HubInit, HubScan, HubStep, PortSpeed, PortState, PortStatus, UsbHub};

fn host_bring_up(h: &mut UsbHostController, version: u32, params: u32) -> Result<(), HostError> {
    let mut st = HostInit::Start;
    let mut v = 0u32;
    for _ in 0..20000 {
        match h.init(&mut st, v) {
            HostStep::Run(ops) => {
                for op in ops {
                    match op {
                        MmioOp::Read16(0x00) => v = version,
                        MmioOp::Read32(0x20) => v = 0,
                        MmioOp::Read32(0x04) => v = params,
                        MmioOp::Read32(0x08) => v = params,
                        _ => {}
                    }
                }
            }
            HostStep::Done(r) => return r,
        }
    }
    panic!("bring-up did not end");
}

#[test]
fn usb_host_bring_up_reads_port_counts() {
    let mut ehci = UsbHostController::new(HostControllerType::Ehci);
    assert_eq!(host_bring_up(&mut ehci, 0x0100, 0x0600_0000), Ok(()));
    assert_eq!(ehci.port_count(), 6);
    let mut xhci = UsbHostController::new(HostControllerType::Xhci);
    assert_eq!(host_bring_up(&mut xhci, 0x0100, 0x0800_0105), Ok(()));
    assert_eq!(xhci.port_count(), 5);
    let mut uhci = UsbHostController::new(HostControllerType::Uhci);
    assert_eq!(host_bring_up(&mut uhci, 0x0100, 0), Ok(()));
    assert_eq!(uhci.port_count(), 2);
    let mut none = UsbHostController::new(HostControllerType::Ehci);
    assert_eq!(host_bring_up(&mut none, 0xFFFF, 0), Err(HostError::NotFound));
}

#[test]
fn usb_host_ports() {
    let ehci = UsbHostController::new(HostControllerType::Ehci);
    let xhci = UsbHostController::new(HostControllerType::Xhci);
    let ohci = UsbHostController::new(HostControllerType::Ohci);
    assert_eq!(ehci.port_status_reg(2), Some(0x4C));
    assert_eq!(xhci.port_status_reg(2), Some(0x420));
    assert_eq!(ohci.port_status_reg(2), None);
    assert_eq!(ehci.port_speed(1 << 26), UsbSpeed::Low);
    assert_eq!(ehci.port_speed(2 << 26), UsbSpeed::High);
    assert_eq!(ehci.port_speed(0), UsbSpeed::Full);
    assert_eq!(xhci.port_speed(4 << 10), UsbSpeed::Super);
    assert_eq!(xhci.port_speed(3 << 10), UsbSpeed::High);
    assert_eq!(ohci.port_speed(0xFFFF_FFFF), UsbSpeed::Full);
    assert_eq!(ehci.reset_port(1, 0x1005), Ok(MmioOp::Write32(0x48, 0x1105)));
    assert_eq!(xhci.reset_port(0, 0x0201), Ok(MmioOp::Write32(0x400, 0x0211)));
    assert_eq!(ohci.reset_port(0, 0), Err(HostError::NotImplemented));
    assert!(ehci.reset_done(0x1005));
    assert!(!ehci.reset_done(0x1105));
    assert!(xhci.reset_done(0x0001));
    assert_eq!(ehci.reset_outcome(false), Ok(()));
    assert_eq!(xhci.reset_outcome(false), Err(HostError::Timeout));
    assert_eq!(xhci.reset_outcome(true), Ok(()));
    assert_eq!(ohci.reset_outcome(true), Err(HostError::NotImplemented));
}

#[test]
fn usb_host_setup_packets_and_enumeration() {
    assert_eq!(
        UsbSetupPacket::get_descriptor(0x01, 0, 0),
        UsbSetupPacket { bm_request_type: 0x80, b_request: 0x06, w_value: 0x0100, w_index: 0, w_length: 0xFF }
    );
    assert_eq!(
        UsbSetupPacket::set_address(5),
        UsbSetupPacket { bm_request_type: 0, b_request: 0x05, w_value: 5, w_index: 0, w_length: 0 }
    );
    assert_eq!(UsbSetupPacket::set_configuration(1).b_request, 0x09);
    let mut h = UsbHostController::new(HostControllerType::Ehci);
    let mut data = [3u8; 4];
    assert_eq!(h.control_transfer(0, &UsbSetupPacket::set_address(1), &mut data), Err(HostError::TransferFailed));
    assert_eq!(data, [3u8; 4]);
    // every enumeration attempt uses up an address and fails at the first transfer
    assert_eq!(h.next_address(), 1);
    assert_eq!(h.enumerate_device(0, 0x1005), Err(HostError::TransferFailed));
    assert_eq!(h.enumerate_device(1, 0x1005), Err(HostError::TransferFailed));
    assert_eq!(h.next_address(), 3);
    assert_eq!(h.device(1), None);
    assert_eq!(h.device(200), None);
}

fn descriptor() -> UsbDeviceDescriptor {
    UsbDeviceDescriptor {
        bcd_usb: 0x0200,
        device_class: 0,
        device_subclass: 0,
        device_protocol: 0,
        max_packet_size: 64,
        vendor_id: 0x1209,
        product_id: 0x0001,
        bcd_device: 0x0100,
        manufacturer: 1,
        product: 2,
        serial: 3,
        num_configs: 1,
    }
}

fn udc_bring_up(u: &mut UsbDeviceController, vendor: u32) -> (Vec<MmioOp>, Result<(), UdcError>) {
    let mut st = UdcInit::Start;
    let mut v = 0u32;
    let mut all = Vec::new();
    for _ in 0..5000 {
        match u.init(&mut st, v, &descriptor()) {
            UdcStep::Run(ops) => {
                for op in &ops {
                    match op {
                        MmioOp::Read16(0x00) => v = vendor,
                        MmioOp::Read32(0x04) => v = 1,
                        _ => {}
                    }
                }
                all.extend(ops);
            }
            UdcStep::Done(r) => return (all, r),
        }
    }
    panic!("bring-up did not end");
}

#[test]
fn usb_device_bring_up_and_endpoints() {
    let mut u = UsbDeviceController::new();
    assert_eq!(udc_bring_up(&mut u, 0).1, Err(UdcError::NotFound));
    let mut u = UsbDeviceController::new();
    assert_eq!(u.send_data(0, &[1]).err(), Some(UdcError::EndpointError));
    let (ops, r) = udc_bring_up(&mut u, 0x1209);
    assert_eq!(r, Ok(()));
    assert_eq!(&ops[ops.len() - 2..], &[MmioOp::Write16(0x1A, 0x0100), MmioOp::Write8(0x08, 64)]);
    assert_eq!(
        u.send_data(0, &[0xAB, 0xCD]).unwrap(),
        vec![MmioOp::Write8(0x100, 0xAB), MmioOp::Write8(0x101, 0xCD), MmioOp::Write16(0x04, 2)]
    );
    assert_eq!(u.send_data(0, &[0u8; 100]).unwrap().len(), 65);
    assert_eq!(u.send_data(2, &[1]).err(), Some(UdcError::EndpointError));
    let cfg = EndpointConfig { number: 2, dir: EndpointDir::In, max_packet: 512, transfer_type: TransferType::Bulk };
    assert_eq!(
        u.configure_endpoint(&cfg).unwrap(),
        vec![
            MmioOp::Write8(0x30, 2),
            MmioOp::Write8(0x31, 1),
            MmioOp::Write16(0x32, 512),
            MmioOp::Write8(0x34, 2),
            MmioOp::Write8(0x35, 0x01),
        ]
    );
    assert!(u.send_data(2, &[1]).is_ok());
    let bad = EndpointConfig { number: 16, ..cfg };
    assert_eq!(u.configure_endpoint(&bad).err(), Some(UdcError::EndpointError));
    assert_eq!(u.receive_start(2, 0x0001), Ok(0x140));
    assert_eq!(u.receive_start(2, 0x0000), Err(UdcError::EndpointError));
    assert_eq!(u.receive_start(3, 0x0001), Err(UdcError::EndpointError));
    assert_eq!(u.stall_ep(3), Some(MmioOp::Write8(0x20 + 3 * 8 + 6, 0x01)));
    assert_eq!(u.stall_ep(16), None);
    assert_eq!(u.set_address(9), MmioOp::Write8(0x08, 9));
    assert_eq!(u.set_configured(true), MmioOp::Write32(0x0C, 0x01));
    assert_eq!(u.set_configured(false), MmioOp::Write32(0x0C, 0x00));
}

#[test]
fn usb_device_setup_and_receive() {
    let u = UsbDeviceController::new();
    assert_eq!(u.read_setup_packet(0, &[]), None);
    let regs = [0x80, 0x06, 0x00, 0x01, 0x00, 0x00, 0x12, 0x00];
    assert_eq!(
        u.read_setup_packet(0x02, &regs),
        Some(SetupPacket { bm_request_type: 0x80, b_request: 0x06, w_value: 0x0100, w_index: 0, w_length: 0x12 })
    );
    assert_eq!(SetupRequest::from_bm(0x06), SetupRequest::GetDescriptor);
    assert_eq!(SetupRequest::from_bm(0x09), SetupRequest::SetConfiguration);
    assert_eq!(SetupRequest::from_bm(0x02), SetupRequest::Unknown(0x02));
    assert_eq!(EndpointDir::Bidirectional.code(), 2);
    assert_eq!(TransferType::Interrupt.code(), 3);
    let mut buf = [0u8; 2];
    assert_eq!(u.receive_data(&[3, 10, 11], &mut buf), 2);
    assert_eq!(buf, [3, 10]);
    let mut buf = [9u8; 4];
    assert_eq!(u.receive_data(&[2, 5], &mut buf), 2);
    assert_eq!(buf, [2, 5, 9, 9]);
}

struct HubRegs {
    regs: HashMap<usize, u32>,
}

impl HubRegs {
    fn run(&mut self, ops: &[MmioOp]) -> Vec<u32> {
        let mut reads = Vec::new();
        for op in ops {
            match *op {
                MmioOp::Read8(off) | MmioOp::Read16(off) | MmioOp::Read32(off) => {
                    reads.push(*self.regs.get(&off).unwrap_or(&0))
                }
                // change bits are cleared by writing ones
                MmioOp::Write16(off, v) => {
                    let cur = *self.regs.get(&off).unwrap_or(&0);
                    self.regs.insert(off, cur & !(v as u32));
                }
                MmioOp::Write32(off, v) => {
                    self.regs.insert(off, v);
                }
                _ => panic!("unexpected access"),
            }
        }
        reads
    }
}

fn hub_regs(nbr: u32) -> HubRegs {
    let mut regs = HashMap::new();
    regs.insert(0x00, 0x0200);
    regs.insert(0x04, 1);
    regs.insert(0x10, 9);
    regs.insert(0x11, 0x29);
    regs.insert(0x12, nbr);
    regs.insert(0x13, 0x0012);
    regs.insert(0x15, 50);
    regs.insert(0x16, 100);
    HubRegs { regs }
}

fn hub_bring_up(hub: &mut UsbHub, regs: &mut HubRegs) -> Result<(), lib::usb_hub::HubError> {
    let mut st = HubInit::Start;
    let mut reads: Vec<u32> = Vec::new();
    for _ in 0..5000 {
        match hub.init(&mut st, &reads) {
            HubStep::Run(ops) => reads = regs.run(&ops),
            HubStep::Done(r) => return r,
        }
    }
    panic!("bring-up did not end");
}

#[test]
fn usb_hub_bring_up_powers_ports() {
    let mut hub = UsbHub::new();
    let mut regs = hub_regs(4);
    regs.regs.insert(0x120, 0x0001);
    assert_eq!(hub_bring_up(&mut hub, &mut regs), Ok(()));
    assert_eq!(hub.port_count(), 4);
    for p in 0..4u8 {
        assert_eq!(
            hub.state(p),
            Some(PortState { port: p, status: PortStatus::Disconnected, speed: PortSpeed::NoSpeed, power_on: true, overcurrent: false })
        );
    }
    assert_eq!(hub.state(4), None);
    assert_eq!(regs.regs[&0x120], 0x0005);
    assert_eq!(regs.regs[&0x130], 0x0004);
    let mut big = UsbHub::new();
    let mut regs = hub_regs(40);
    assert_eq!(hub_bring_up(&mut big, &mut regs), Ok(()));
    assert_eq!(big.port_count(), 16);
}

#[test]
fn usb_hub_detects_a_connection() {
    let mut hub = UsbHub::new();
    let mut regs = hub_regs(3);
    hub_bring_up(&mut hub, &mut regs).unwrap();
    regs.regs.insert(0x104, 0x0008);
    regs.regs.insert(0x114, 0x0001);
    regs.regs.insert(0x110, 0x0009);
    let mut st = HubScan::Start;
    let mut reads: Vec<u32> = Vec::new();
    let found;
    loop {
        match hub.detect_changes(&mut st, &reads) {
            HubStep::Run(ops) => reads = regs.run(&ops),
            HubStep::Done(r) => {
                found = r;
                break;
            }
        }
    }
    assert_eq!(found, Some(1));
    let s0 = hub.state(0).unwrap();
    assert!(s0.overcurrent);
    let s1 = hub.state(1).unwrap();
    assert_eq!(s1.status, PortStatus::Connected);
    assert_eq!(s1.speed, PortSpeed::High);
    assert_eq!(regs.regs[&0x114], 0);
    let live = hub.poll_ports();
    assert_eq!(live.len(), 1);
    assert_eq!(live[0].port, 1);
}

#[test]
fn usb_hub_port_operations() {
    let mut hub = UsbHub::new();
    let mut regs = hub_regs(2);
    hub_bring_up(&mut hub, &mut regs).unwrap();
    assert_eq!(hub.port_status_reg(1), Some(0x110));
    assert_eq!(hub.port_status_reg(2), None);
    assert_eq!(hub.port_change_reg(1), Some(0x114));
    assert_eq!(hub.power_port(1, 0x1), MmioOp::Write32(0x110, 0x5));
    assert_eq!(hub.reset_port(0, 0x5), MmioOp::Write32(0x100, 0x15));
    assert!(UsbHub::reset_done(0x05));
    assert!(!UsbHub::reset_done(0x15));
    assert_eq!(hub.reset_abort(0, 0x15), MmioOp::Write32(0x100, 0x05));
    assert_eq!(hub.enable_port(0, 0x5), MmioOp::Write32(0x100, 0x7));
    assert_eq!(hub.disable_port(0, 0x7), MmioOp::Write32(0x100, 0x5));
    assert_eq!(UsbHub::port_speed(0x0), PortSpeed::Full);
    assert_eq!(UsbHub::port_speed(0x4), PortSpeed::Low);
    assert_eq!(UsbHub::port_speed(0xC), PortSpeed::Super);
    assert_eq!(hub.clear_port_change(1, 0x1), MmioOp::Write16(0x114, 0x1));
    let mut empty = UsbHub::new();
    let mut st = HubScan::Start;
    assert!(matches!(empty.detect_changes(&mut st, &[]), HubStep::Done(None)));
    assert!(empty.poll_ports().is_empty());
}

#[test]
fn usb_port_reset_polls() {
    let ehci = UsbHostController::new(HostControllerType::Ehci);
    assert_eq!(ehci.reset_poll(0, 0x0100), None);
    assert_eq!(ehci.reset_poll(0, 0x0000), Some(Ok(())));
    assert_eq!(ehci.reset_poll(9_999, 0x0100), Some(Ok(())));
    let xhci = UsbHostController::new(HostControllerType::Xhci);
    assert_eq!(xhci.reset_poll(0, 0x00), None);
    assert_eq!(xhci.reset_poll(3, 0x01), Some(Ok(())));
    assert_eq!(xhci.reset_poll(9_999, 0x00), Some(Err(HostError::Timeout)));
    let uhci = UsbHostController::new(HostControllerType::Uhci);
    assert_eq!(uhci.reset_poll(0, 0), Some(Err(HostError::NotImplemented)));
    assert_eq!(UsbHub::reset_poll(0, 0x10), None);
    assert_eq!(UsbHub::reset_poll(7, 0x03), Some(true));
    assert_eq!(UsbHub::reset_poll(9_999, 0x10), Some(false));
}
