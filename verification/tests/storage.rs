use std::collections::HashMap;

use lib::ahci::{link_up, port_type, AhciController, AhciError, AhciInit, AhciPort, AhciStep, PortType};
use lib::mmio::MmioOp;
use lib::nvme::{
    io_command, NvmeController, NvmeError, NvmeInit, NvmeStep, SubmissionQueueEntry, AQA_VALUE,
    CC_VALUE, COMPLETION_POLLS,
};
use lib::virtio::{
    check_header, driver_bit_clear, status_settled, status_steps, status_wait_step, with_reset_bit,
    StatusWait, VirtioDeviceType, VirtioInit, VirtioStep,
    VirtioError, VirtioQueue, VirtioTransport, VirtqAvail, VirtqDesc, VirtqUsed, VirtqUsedElem,
};

#[test]
fn ahci_signatures_and_links() {
    assert_eq!(port_type(0x0000_0101), PortType::Sata);
    assert_eq!(port_type(0xEB14_0101), PortType::Satapi);
    assert_eq!(port_type(0xC33C_0101), PortType::Semu);
    assert_eq!(port_type(0x9669_0101), PortType::NoDevice);
    assert!(link_up(0x0000_0123));
    assert!(!link_up(0x0000_0121));
    assert!(!link_up(0x0000_0603));
}

/// Registers of an HBA with ports 0 and 2 implemented and linked; port 2
/// has its command engine running.
struct Hba {
    regs: HashMap<usize, u32>,
}

impl Hba {
    fn new(cap: u32) -> Hba {
        let mut regs = HashMap::new();
        regs.insert(0x00, cap);
        regs.insert(0x04, 0);
        regs.insert(0x0C, 0b101);
        regs.insert(0x118, 0);
        regs.insert(0x128, 0x123);
        regs.insert(0x124, 0x0000_0101);
        regs.insert(0x218, 0x8001);
        regs.insert(0x228, 0x113);
        regs.insert(0x224, 0xEB14_0101);
        Hba { regs }
    }

    fn run(&mut self, ops: &[MmioOp]) -> u32 {
        let mut last = 0;
        for op in ops {
            match *op {
                MmioOp::Read32(off) => last = *self.regs.get(&off).unwrap_or(&0),
                // reset completes at once; a cleared start bit stops the engine
                MmioOp::Write32(0x04, v) => {
                    self.regs.insert(0x04, v & !1);
                }
                MmioOp::Write32(off, v) => {
                    let v = if v & 1 == 0 { v & !0x8000 } else { v };
                    self.regs.insert(off, v);
                }
                _ => panic!("unexpected access"),
            }
        }
        last
    }
}

fn bring_up(c: &mut AhciController, hba: &mut Hba) -> Result<(), AhciError> {
    let mut st = AhciInit::Start;
    let mut v = 0u32;
    for _ in 0..1000 {
        match c.init(&mut st, v) {
            AhciStep::Run(ops) => v = hba.run(&ops),
            AhciStep::Done(r) => return r,
        }
    }
    panic!("bring-up did not end");
}

#[test]
fn ahci_bring_up_records_linked_ports() {
    let mut c = AhciController::new(0xFEBF_1000);
    let mut hba = Hba::new(0x4000_0000);
    assert_eq!(bring_up(&mut c, &mut hba), Ok(()));
    assert_eq!(c.base(), 0xFEBF_1000);
    assert_eq!(c.port_count(), 2);
    assert_eq!(
        c.get_port(0),
        Some(AhciPort { id: 0, port_type: PortType::Sata, signature: 0x101, sector_count: 0 })
    );
    assert_eq!(c.get_port(1), None);
    assert_eq!(c.get_port(2).unwrap().port_type, PortType::Satapi);
    assert_eq!(c.get_port(40), None);
    // AHCI mode and interrupts were turned on; port 2's engine was stopped
    assert_eq!(hba.regs[&0x04], 0x8000_0002);
    assert_eq!(hba.regs[&0x218], 0x0000);
    let mut buf = [7u8; 4];
    assert_eq!(c.read_sectors(0, 0, 1, &mut buf), Err(AhciError::CommandFailed));
    assert_eq!(buf, [7u8; 4]);
    assert_eq!(c.write_sectors(0, 0, 1, &buf), Err(AhciError::CommandFailed));
    assert_eq!(c.flush_cache(0), Ok(()));
}

#[test]
fn ahci_bring_up_errors() {
    let mut c = AhciController::new(0);
    let mut hba = Hba::new(0xFFFF_FFFF);
    assert_eq!(bring_up(&mut c, &mut hba), Err(AhciError::NotFound));
    let mut c = AhciController::new(0);
    let mut hba = Hba::new(1);
    hba.regs.insert(0x128, 0);
    hba.regs.insert(0x228, 0);
    assert_eq!(bring_up(&mut c, &mut hba), Err(AhciError::NoPorts));
    assert_eq!(c.port_count(), 0);
}

fn nvme_bring_up(c: &mut NvmeController, csts: u64, identify: Result<(), NvmeError>) -> (Vec<MmioOp>, Result<(), NvmeError>) {
    let mut st = NvmeInit::Start;
    let mut v = 0u64;
    let mut cmd: Result<(), NvmeError> = Ok(());
    let mut all = Vec::new();
    for _ in 0..20000 {
        match c.init(&mut st, v, cmd, 0x10_0000, 0x20_0000) {
            NvmeStep::Run(ops) => {
                for op in &ops {
                    match op {
                        MmioOp::Read64(0x00) => v = 0x20_0000_00FF,
                        MmioOp::Read32(0x0C) => v = csts,
                        _ => {}
                    }
                }
                all.extend(ops);
            }
            NvmeStep::Submit(entry) => {
                assert_eq!(entry.cdw0, 0x06);
                assert_eq!(entry.cdw10, 1);
                cmd = identify;
            }
            NvmeStep::Done(r) => return (all, r),
        }
    }
    panic!("bring-up did not end");
}

#[test]
fn nvme_bring_up_programs_admin_queues() {
    let mut c = NvmeController::new();
    let (ops, r) = nvme_bring_up(&mut c, 1, Ok(()));
    assert_eq!(r, Ok(()));
    assert_eq!(
        &ops[..6],
        &[
            MmioOp::Read64(0x00),
            MmioOp::Write32(0x14, AQA_VALUE),
            MmioOp::Write64(0x18, 0x10_0000),
            MmioOp::Write64(0x20, 0x20_0000),
            MmioOp::Write32(0x08, CC_VALUE),
            MmioOp::Read32(0x0C),
        ]
    );
    assert_eq!(AQA_VALUE, 0x0040_0040);
    assert_eq!(CC_VALUE, 0x0046_0301);
    assert_eq!(c.namespace_count(), 0);

    let mut c = NvmeController::new();
    assert_eq!(nvme_bring_up(&mut c, 2, Ok(())).1, Err(NvmeError::InitFailed));
    let mut c = NvmeController::new();
    assert_eq!(nvme_bring_up(&mut c, 1, Err(NvmeError::Timeout)).1, Err(NvmeError::Timeout));
    let mut c = NvmeController::new();
    assert_eq!(nvme_bring_up(&mut c, 0, Ok(())).1, Err(NvmeError::InitFailed));
}

#[test]
fn nvme_queues_wrap() {
    let mut c = NvmeController::new();
    let cmd = SubmissionQueueEntry::default();
    for i in 0..64u16 {
        let (slot, tail) = c.submit_command(&cmd);
        assert_eq!(slot, i as usize);
        assert_eq!(tail, (i + 1) % 64);
    }
    assert_eq!(c.submit_command(&cmd), (0, 1));
    assert_eq!(c.completion_slot(), 0);
    assert_eq!(c.completion(0x0000), None);
    assert_eq!(c.completion(0x0001), Some(Ok(())));
    assert_eq!(c.cq_head(), 1);
    assert_eq!(c.completion(0x0005), Some(Err(NvmeError::CommandFailed)));
    assert_eq!(c.completion_slot(), 2);
}

#[test]
fn nvme_commands() {
    let c = NvmeController::new();
    let cq = c.create_io_cq(1, 64, 0x3000);
    assert_eq!(cq.cdw0, 0x70005);
    assert_eq!({ cq.prp1 }, 0x3000);
    assert_eq!(cq.cdw10, 0x003F_0001);
    assert_eq!(cq.cdw11, 3);
    let sq = c.create_io_sq(1, 16, 0x4000, 1);
    assert_eq!(sq.cdw0, 0x70001);
    assert_eq!(sq.cdw10, 0x000F_0001);
    assert_eq!(sq.cdw11, 0x0001_0001);
    let rd = io_command(0x02, 1, 0x1_0000_0010, 8, 0x5000);
    assert_eq!(rd.cdw0, 0x02);
    assert_eq!(rd.nsid, 1);
    assert_eq!(rd.cdw10, 0x10);
    assert_eq!(rd.cdw11, 0x1);
    assert_eq!(rd.cdw12, 7);
    assert_eq!({ rd.prp1 }, 0x5000);
    assert_eq!(c.read_blocks(1, 0, 1, 0x5000), Err(NvmeError::CommandFailed));
    assert_eq!(c.write_blocks(1, 0, 1, 0x5000), Err(NvmeError::CommandFailed));
}

fn queue(size: u16) -> VirtioQueue {
    let desc: Vec<VirtqDesc> = (0..size).map(|i| VirtqDesc { addr: 0, len: 0, flags: 0, next: i + 1 }).collect();
    let avail = VirtqAvail { flags: 0, idx: 0, ring: [0; 256], used_event: 0 };
    let used = VirtqUsed { flags: 0, idx: 0, ring: [VirtqUsedElem { id: 0, len: 0 }; 256], avail_event: 0 };
    VirtioQueue::new(3, size, desc, avail, used)
}

#[test]
fn virtio_free_list_is_last_in_first_out() {
    let mut q = queue(4);
    assert_eq!(q.alloc_desc(), Some(0));
    assert_eq!(q.alloc_desc(), Some(1));
    q.free_desc(0);
    // law: a freed descriptor is the next one handed out
    assert_eq!(q.alloc_desc(), Some(0));
    assert_eq!(q.alloc_desc(), Some(2));
    assert_eq!(q.alloc_desc(), Some(3));
    assert_eq!(q.alloc_desc(), None);
    q.free_desc(3);
    q.free_desc(1);
    assert_eq!(q.alloc_desc(), Some(1));
    assert_eq!(q.alloc_desc(), Some(3));
    assert_eq!(q.notify_value(), 3);
}

#[test]
fn virtio_rings() {
    let mut q = queue(4);
    q.add_buf(2);
    q.add_buf(3);
    assert_eq!(q.avail.ring[0], 2);
    assert_eq!(q.avail.ring[1], 3);
    assert_eq!(q.avail.idx, 2);
    q.used.ring[1] = VirtqUsedElem { id: 9, len: 512 };
    q.used.idx = 6;
    assert_eq!(q.used_idx(), 6);
    assert_eq!(q.get_used_elem(5), VirtqUsedElem { id: 9, len: 512 });
}

#[test]
fn virtio_transport() {
    assert_eq!(VirtioDeviceType::from_id(2), VirtioDeviceType::Block);
    assert_eq!(VirtioDeviceType::from_id(16), VirtioDeviceType::Gpu);
    assert_eq!(VirtioDeviceType::from_id(10), VirtioDeviceType::Unknown);
    assert_eq!(check_header(0x7472_6976, 2), Ok(()));
    assert_eq!(check_header(0x7472_6976, 1), Ok(()));
    assert_eq!(check_header(0x7472_6976, 3), Err(VirtioError::NotFound));
    assert_eq!(check_header(0, 2), Err(VirtioError::NotFound));
    assert_eq!(status_steps(0), [0x01, 0x03, 0x07, 0x0F]);
    assert!(status_settled(0x0F));
    assert!(!status_settled(0x0B));
    assert!(driver_bit_clear(0x01));
    assert!(!driver_bit_clear(0x03));
    assert_eq!(with_reset_bit(0x0F), 0x1F);
    let mut t = VirtioTransport::new(0x1000_0000, 0x1000);
    assert_eq!(t.device_type(), VirtioDeviceType::Unknown);
    assert_eq!(t.driver_features(), 0);
    let mut buf = [1u8; 8];
    assert_eq!(t.block_read(0, &mut buf), Err(VirtioError::DeviceError));
    assert_eq!(buf, [1u8; 8]);
    assert_eq!(t.block_write(0, &buf), Err(VirtioError::DeviceError));
}

#[test]
fn nvme_completion_polling_times_out() {
    let mut c = NvmeController::new();
    let cmd = SubmissionQueueEntry::default();
    assert_eq!(c.submit_command(&cmd), (0, 1));
    assert_eq!(c.poll_completion(0, 0x0000), None);
    assert_eq!(c.poll_completion(COMPLETION_POLLS - 2, 0x0000), None);
    assert_eq!(c.poll_completion(COMPLETION_POLLS - 1, 0x0000), Some(Err(NvmeError::Timeout)));
    assert_eq!(c.cq_head(), 0);
    assert_eq!(COMPLETION_POLLS, 100_000);
    assert_eq!(c.poll_completion(5, 0x0001), Some(Ok(())));
    assert_eq!(c.cq_head(), 1);
    assert_eq!(c.poll_completion(COMPLETION_POLLS - 1, 0x0003), Some(Err(NvmeError::CommandFailed)));
    assert_eq!(c.cq_head(), 2);
}

#[test]
fn virtio_status_waits() {
    assert_eq!(status_wait_step(StatusWait::Settle { n: 0 }, 0x07), (StatusWait::Settle { n: 1 }, vec![MmioOp::Read8(0x22)]));
    assert_eq!(status_wait_step(StatusWait::Settle { n: 3 }, 0x0F), (StatusWait::Raise, vec![MmioOp::Read8(0x22)]));
    assert_eq!(status_wait_step(StatusWait::Settle { n: 999 }, 0x00), (StatusWait::Raise, vec![MmioOp::Read8(0x22)]));
    assert_eq!(
        status_wait_step(StatusWait::Raise, 0x0F),
        (StatusWait::Reset { n: 0 }, vec![MmioOp::Write8(0x22, 0x1F), MmioOp::Read8(0x22)])
    );
    assert_eq!(status_wait_step(StatusWait::Reset { n: 0 }, 0x1F), (StatusWait::Reset { n: 1 }, vec![MmioOp::Read8(0x22)]));
    assert_eq!(status_wait_step(StatusWait::Reset { n: 5 }, 0x1D), (StatusWait::Finished, vec![]));
    assert_eq!(status_wait_step(StatusWait::Reset { n: 9999 }, 0x1F), (StatusWait::Finished, vec![]));
    assert_eq!(status_wait_step(StatusWait::Finished, 0), (StatusWait::Finished, vec![]));
}

/// A virtio MMIO device whose status register drops the driver bit once
/// the needs-reset bit is written.
fn virtio_run(t: &mut VirtioTransport, magic: u32) -> (Vec<MmioOp>, Result<(), VirtioError>) {
    let mut status: u64 = 0;
    let mut log = Vec::new();
    let mut st = VirtioInit::Start;
    let mut v = 0u64;
    loop {
        match t.init(&mut st, v) {
            VirtioStep::Run(ops) => {
                for op in ops {
                    log.push(op);
                    match op {
                        MmioOp::Read32(0x00) => v = magic as u64,
                        MmioOp::Read32(0x04) => v = 2,
                        MmioOp::Read32(0x08) => v = 2,
                        MmioOp::Read32(0x0C) => v = 0x554D_4551,
                        MmioOp::Read64(0x10) => v = 0x1_0000_0206,
                        MmioOp::Read64(0x20) => v = 0x206,
                        MmioOp::Read8(0x22) => v = status,
                        MmioOp::Read32(0x30) => v = 7,
                        MmioOp::Write8(0x22, s) => {
                            status = if s & 0x10 != 0 { (s & !0x02) as u64 } else { s as u64 };
                        }
                        _ => {}
                    }
                }
            }
            VirtioStep::Done(r) => return (log, r),
        }
    }
}

#[test]
fn virtio_bring_up() {
    let mut t = VirtioTransport::new(0x1000_0000, 0x1000);
    let (log, r) = virtio_run(&mut t, 0x7472_6976);
    assert_eq!(r, Ok(()));
    assert_eq!(
        log,
        vec![
            MmioOp::Read32(0x00),
            MmioOp::Read32(0x04),
            MmioOp::Read32(0x08),
            MmioOp::Read32(0x0C),
            MmioOp::Read64(0x10),
            MmioOp::Write32(0x20, 0),
            MmioOp::Read64(0x20),
            MmioOp::Read8(0x22),
            MmioOp::Write8(0x22, 0x01),
            MmioOp::Write8(0x22, 0x03),
            MmioOp::Write8(0x22, 0x07),
            MmioOp::Write8(0x22, 0x0F),
            MmioOp::Read8(0x22),
            MmioOp::Read8(0x22),
            MmioOp::Write8(0x22, 0x1F),
            MmioOp::Read8(0x22),
            MmioOp::Read32(0x30),
        ]
    );
    assert_eq!(t.device_type(), VirtioDeviceType::Block);
    assert_eq!(t.features(), 0x1_0000_0206);
    assert_eq!(t.notify_offset(), 7);
    let mut bad = VirtioTransport::new(0x1000_0000, 0x1000);
    let (log, r) = virtio_run(&mut bad, 0x1234_5678);
    assert_eq!(r, Err(VirtioError::NotFound));
    assert_eq!(log, vec![MmioOp::Read32(0x00)]);
    assert_eq!(bad.device_type(), VirtioDeviceType::Unknown);
}
