use lib::acpi::{
    facp_sig, parse_generic_address, parse_rsdp, parse_sdt_header, Acpi, AcpiError,
    AcpiPmResource, GenericAddress, MemWrite8, MemWrite16, PowerState,
};

fn rsdp_bytes(revision: u8, rsdt: u32, xsdt: u64) -> Vec<u8> {
    let mut b = b"RSD PTR ".to_vec();
    b.push(0x5A);
    b.extend_from_slice(b"BOCHS ");
    b.push(revision);
    b.extend_from_slice(&rsdt.to_le_bytes());
    b.extend_from_slice(&xsdt.to_le_bytes());
    b.push(0xA5);
    b
}

fn header(sig: &[u8; 4], length: u32) -> Vec<u8> {
    let mut b = sig.to_vec();
    b.extend_from_slice(&length.to_le_bytes());
    b.push(1);
    b.push(0x33);
    b.extend_from_slice(b"BOCHS ");
    b.extend_from_slice(b"BXPCRSDT");
    b.extend_from_slice(&7u32.to_le_bytes());
    b.extend_from_slice(&0x4350_5842u32.to_le_bytes());
    b.extend_from_slice(&1u32.to_le_bytes());
    b
}

#[test]
fn parses_rsdp_and_headers() {
    let b = rsdp_bytes(2, 0x7FE1_5000, 0x1_7FE1_6000);
    let r = parse_rsdp(&b);
    assert_eq!(&r.signature, b"RSD PTR ");
    assert_eq!(r.checksum, 0x5A);
    assert_eq!(&r.oem_id, b"BOCHS ");
    assert_eq!(r.revision, 2);
    assert_eq!({ r.rsdt_address }, 0x7FE1_5000);
    assert_eq!({ r.xsdt_address }, 0x1_7FE1_6000);
    assert_eq!(r.ext_checksum, 0xA5);
    assert_eq!(Acpi::root_address(&r), 0x1_7FE1_6000);
    let r0 = parse_rsdp(&rsdp_bytes(0, 0x7FE1_5000, 0));
    assert_eq!(Acpi::root_address(&r0), 0x7FE1_5000);

    let h = parse_sdt_header(&header(b"RSDT", 44));
    assert_eq!(&h.signature, b"RSDT");
    assert_eq!({ h.length }, 44);
    assert_eq!(h.revision, 1);
    assert_eq!(h.checksum, 0x33);
    assert_eq!(&h.oem_table_id, b"BXPCRSDT");
    assert_eq!({ h.oem_revision }, 7);
    assert_eq!({ h.creator_id }, 0x4350_5842);
    assert_eq!(&facp_sig(), b"FACP");
}

#[test]
fn generic_address_layout() {
    let mut b = vec![0u8; 4];
    b.extend_from_slice(&[1, 8, 0, 1]);
    b.extend_from_slice(&0xCF9u64.to_le_bytes());
    let g = parse_generic_address(&b, 4);
    assert_eq!(g, GenericAddress { address_space: 1, bit_width: 8, bit_offset: 0, access_size: 1, address: 0xCF9 });
}

#[test]
fn rejects_a_wrong_signature() {
    let mut b = rsdp_bytes(0, 0x1000, 0);
    b[0] = b'X';
    assert!(matches!(Acpi::new(&b, &[]), Err(AcpiError::NoRsdp)));
}

#[test]
fn root_table_entries_and_lookup() {
    let acpi = Acpi::new(&rsdp_bytes(0, 0x7FE1_5000, 0), &header(b"RSDT", 36 + 3 * 4)).ok().unwrap();
    assert_eq!(acpi.entry_count(), 3);
    assert_eq!(acpi.entry_location(2), (0x7FE1_5000 + 36 + 8, 4));
    let x = Acpi::new(&rsdp_bytes(2, 0, 0x8000_0000), &header(b"XSDT", 36 + 3 * 8)).ok().unwrap();
    assert_eq!(x.entry_count(), 3);
    assert_eq!(x.entry_location(1), (0x8000_0000 + 36 + 8, 8));
    let raw = [0x10u8, 0x20, 0x30, 0x40, 0x01, 0x00, 0x00, 0x00];
    assert_eq!(x.entry_address(&raw), 0x1_4030_2010);
    assert_eq!(acpi.entry_address(&raw), 0x4030_2010);
    let entries = [(0x1000u64, *b"APIC"), (0x2000u64, *b"FACP"), (0x3000u64, *b"FACP")];
    assert_eq!(acpi.find_table(b"FACP", &entries), Some(0x2000));
    assert_eq!(acpi.find_table(b"HPET", &entries), None);
    assert_eq!(acpi.find_table(b"FACP", &[]), None);
}

fn fadt() -> Vec<u8> {
    let mut f = vec![0u8; 200];
    f[56..60].copy_from_slice(&0x600u32.to_le_bytes());
    f[60..64].copy_from_slice(&0x1_0000u32.to_le_bytes());
    f[64..68].copy_from_slice(&0x604u32.to_le_bytes());
    f[68..72].copy_from_slice(&0u32.to_le_bytes());
    f
}

#[test]
fn power_management_writes() {
    let mut acpi = Acpi::new(&rsdp_bytes(0, 0x7FE1_5000, 0), &header(b"RSDT", 40)).ok().unwrap();
    assert_eq!(acpi.sleep(PowerState::G1Sleeping), Err(AcpiError::NotSupported));
    assert_eq!(acpi.shutdown(None), Err(AcpiError::TableNotFound));
    assert_eq!(acpi.shutdown(Some(0x2000)), Err(AcpiError::NotSupported));
    assert_eq!(acpi.load_facp(None, &[]), Err(AcpiError::TableNotFound));
    assert_eq!(acpi.pm_resource(), None);
    assert_eq!(acpi.load_facp(Some(0x2000), &fadt()), Ok(()));
    assert_eq!(
        acpi.pm_resource(),
        Some(AcpiPmResource { pm1a_cnt_blk: 0x604, pm1b_cnt_blk: 0, pm1a_evt_blk: 0x600, pm1b_evt_blk: 0 })
    );
    assert_eq!(acpi.sleep(PowerState::G1Sleeping), Ok(MemWrite16 { address: 0x604, value: 0x2400 }));
    assert_eq!(acpi.sleep(PowerState::G2SoftOff), Ok(MemWrite16 { address: 0x604, value: 0x3400 }));
    assert_eq!(acpi.sleep(PowerState::G0Working), Err(AcpiError::NotSupported));
    assert_eq!(acpi.shutdown(Some(0x2000)), Ok(MemWrite16 { address: 0x604, value: 0x3400 }));
}

#[test]
fn reboot_through_the_reset_register() {
    let acpi = Acpi::new(&rsdp_bytes(0, 0x7FE1_5000, 0), &header(b"RSDT", 40)).ok().unwrap();
    let mut f = fadt();
    assert_eq!(acpi.reboot(None, &f), Err(AcpiError::TableNotFound));
    assert_eq!(acpi.reboot(Some(0x2000), &f), Err(AcpiError::NotSupported));
    f[152] = 1;
    f[156..164].copy_from_slice(&0xCF9u64.to_le_bytes());
    f[164] = 0x06;
    assert_eq!(acpi.reboot(Some(0x2000), &f), Ok(MemWrite8 { address: 0xCF9, value: 0x06 }));
    f[152] = 2;
    assert_eq!(acpi.reboot(Some(0x2000), &f), Err(AcpiError::NotSupported));
}
