use lib::bytes::{read_array4, read_le16, read_le32, read_le64};
use lib::mmio::{bit0_set, id_absent16, id_absent32};
use lib::pci::{
    config_field16, config_field8, merge16, ConfigAccess, PciAddress, PciBus, PciConfigMode,
    PciDeviceInfo, PciError, PciScan, ScanStep,
};
use lib::ps2::{input_empty, output_full, push_aux_command, wait_done, Ps2Op};

#[test]
fn config_address_encodes_bus_device_function_and_aligned_offset() {
    let a = PciAddress::new(1, 3, 2);
    assert_eq!(a.to_config_addr(0x13), 0x8001_1A10);
    assert_eq!(a.mmio_offset(0x13), 0x11A013);
}

#[test]
fn config_access_follows_the_bus_mode() {
    let a = PciAddress::new(0, 1, 0);
    let io = PciBus::new_io();
    assert_eq!(io.config_mode(), PciConfigMode::Io);
    assert_eq!(io.config_access(a, 0x04), ConfigAccess::Port(0x8000_0804));
    let mm = PciBus::new_mmio(0xE000_0000, 0x1000_0000);
    assert_eq!(mm.config_mode(), PciConfigMode::Mmio { base: 0xE000_0000, size: 0x1000_0000 });
    assert_eq!(mm.config_access(a, 0x04), ConfigAccess::Window(0x8004));
}

#[test]
fn field_extraction_and_merge() {
    assert_eq!(config_field16(0x1237_8086, 0x00), 0x8086);
    assert_eq!(config_field16(0x1237_8086, 0x02), 0x1237);
    assert_eq!(config_field8(0x0600_0002, 0x0B), 0x06);
    assert_eq!(config_field8(0x0600_0002, 0x08), 0x02);
    let merged = merge16(0x1234_5678, 0x02, 0xABCD);
    assert_eq!(merged, 0xABCD_5678);
    // law: a merged field reads back as written
    assert_eq!(config_field16(merged, 0x02), 0xABCD);
    assert_eq!(config_field16(merge16(0x1234_5678, 0x04, 0x0007), 0x04), 0x0007);
}

#[test]
fn bar_register_offsets_and_invalid_index() {
    assert_eq!(PciBus::bar_register(0), Ok(0x10));
    assert_eq!(PciBus::bar_register(5), Ok(0x24));
    assert_eq!(PciBus::bar_register(6), Err(PciError::BarInvalid));
    assert!(PciBus::bar_has_high_half(5, 0x0000_000C));
    assert!(!PciBus::bar_has_high_half(4, 0x0000_000C));
    assert!(!PciBus::bar_has_high_half(5, 0xC001));
}

#[test]
fn read_bar_decodes_memory_and_io_bars() {
    let bus = PciBus::new_io();
    let a = PciAddress::new(0, 2, 0);
    let bar = bus.read_bar(a, 0, 0xFEBF_0008, 0, 0xFFFF_0000).unwrap();
    assert_eq!(bar.address, 0xFEBF_0000);
    assert_eq!(bar.size, 0x1_0000);
    assert!(bar.is_mmio);
    assert!(bar.is_prefetchable);
    // law: the size is the two's complement of the size mask
    assert_eq!(bar.size + 0xFFFF_0000, 0x1_0000_0000);

    let bar5 = bus.read_bar(a, 5, 0x0000_000C, 0x1, 0xFFFF_FFF0).unwrap();
    assert_eq!(bar5.address, 0x1_0000_0000);
    assert_eq!(bar5.size, 0x10);

    let io = bus.read_bar(a, 1, 0xC001, 0, 0xFFFF_FFE1).unwrap();
    assert!(!io.is_mmio);
    assert!(!io.is_prefetchable);
    assert_eq!(io.address, 0xC000);
    assert_eq!(io.size, 0xFFFF_0020);

    let empty = bus.read_bar(a, 2, 0, 0, 0).unwrap();
    assert_eq!(empty.size, 0);
    assert_eq!(bus.read_bar(a, 6, 0, 0, 0), Err(PciError::BarInvalid));
}

#[test]
fn bus_master_bit() {
    assert_eq!(PciBus::bus_master_command(0x0003, true), 0x0007);
    assert_eq!(PciBus::bus_master_command(0x0007, false), 0x0003);
}

fn config_space(a: PciAddress, off: u8) -> u32 {
    if a.bus == 0 && a.device == 0 && a.function == 0 {
        match off & 0xFC {
            0x00 => 0x1237_8086,
            0x08 => 0x0600_0002,
            0x0C => 0x0000_0000,
            0x2C => 0x1100_1AF4,
            _ => 0,
        }
    } else if a.bus == 0 && a.device == 3 {
        match (a.function, off & 0xFC) {
            (0, 0x00) => 0x100E_8086,
            (0, 0x0C) => 0x0080_0000,
            (0, 0x08) => 0x0200_0003,
            (1, 0x00) => 0x100F_8086,
            (1, 0x08) => 0x0C03_2001,
            (_, 0x00) => 0xFFFF_FFFF,
            _ => 0,
        }
    } else {
        0xFFFF_FFFF
    }
}

#[test]
fn enumerate_finds_every_present_function() {
    let bus = PciBus::new_io();
    let mut st = PciScan::Slot { bus: 0, device: 0 };
    let mut found: Vec<PciDeviceInfo> = Vec::new();
    let mut v = config_space(PciAddress::new(0, 0, 0), 0x00);
    let result;
    loop {
        match bus.enumerate(&mut st, &mut found, v) {
            ScanStep::Read(a, off) => v = config_space(a, off),
            ScanStep::Done(r) => {
                result = r;
                break;
            }
        }
    }
    let devices = result.unwrap();
    assert_eq!(devices.len(), 3);
    let host = devices[0];
    assert_eq!(host.address, PciAddress::new(0, 0, 0));
    assert_eq!(host.vendor_id, 0x8086);
    assert_eq!(host.device_id, 0x1237);
    assert_eq!(host.revision, 0x02);
    assert_eq!(host.class, 0x06);
    assert_eq!(host.subclass, 0x00);
    assert_eq!(host.subsystem_vendor, 0x1AF4);
    assert_eq!(host.subsystem_id, 0x1100);
    assert_eq!(devices[1].address, PciAddress::new(0, 3, 0));
    assert_eq!(devices[1].header_type, 0x80);
    assert_eq!(devices[1].class, 0x02);
    assert_eq!(devices[2].address, PciAddress::new(0, 3, 1));
    assert_eq!(devices[2].device_id, 0x100F);
    assert_eq!(devices[2].class, 0x0C);
    assert_eq!(devices[2].subclass, 0x03);
    assert_eq!(devices[2].prog_if, 0x20);
    assert_eq!(devices[2].revision, 0x01);
    assert_eq!(st, PciScan::Finished);
}

#[test]
fn absent_ids_and_status_bits() {
    assert!(id_absent16(0xFFFF));
    assert!(id_absent16(0));
    assert!(!id_absent16(0x8086));
    assert!(id_absent32(0xFFFF));
    assert!(!id_absent32(0xFFFF_FFFF));
    assert!(bit0_set(3));
    assert!(!bit0_set(2));
    assert!(output_full(0x01));
    assert!(!output_full(0x02));
    assert!(input_empty(0x01));
    assert!(!input_empty(0x02));
    assert!(wait_done(Ps2Op::WaitWrite, 0x00));
    assert!(!wait_done(Ps2Op::WaitRead, 0x00));
    assert!(wait_done(Ps2Op::ReadData, 0x00));
}

#[test]
fn aux_command_sequence() {
    let mut ops = vec![Ps2Op::ReadData];
    push_aux_command(&mut ops, 0xF4);
    assert_eq!(
        ops,
        vec![
            Ps2Op::ReadData,
            Ps2Op::WaitWrite,
            Ps2Op::WriteCmd(0xD4),
            Ps2Op::WaitWrite,
            Ps2Op::WriteData(0xF4),
            Ps2Op::WaitRead,
            Ps2Op::ReadData,
        ]
    );
}

#[test]
fn little_endian_readers() {
    let b = [0x01u8, 0x02, 0x03, 0x04, 0x05, 0x06, 0x07, 0x08, 0x09];
    assert_eq!(read_le16(&b, 1), 0x0302);
    assert_eq!(read_le32(&b, 0), 0x0403_0201);
    assert_eq!(read_le64(&b, 1), 0x0908_0706_0504_0302);
    assert_eq!(read_array4(&b, 2), [3, 4, 5, 6]);
}
