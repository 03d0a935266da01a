use vstd::prelude::*;
use crate::mmio::{MmioOp, POLLS_LONG};

verus! {

pub type NvmeResult<T> = Result<T, NvmeError>;

#[derive(Debug, Clone, Copy, PartialEq, Eq, Structural)]
pub enum NvmeError {
    NotFound,
    InitFailed,
    QueueFull,
    CommandFailed,
    Timeout,
    InvalidNamespace,
    DmaError,
}

#[derive(Debug, Clone, Copy)]
pub struct NvmeRegisters {
    pub cap: u64,
    pub vs: u32,
    pub intms: u32,
    pub intmc: u32,
    pub cc: u32,
    pub _rsvd1: u32,
    pub csts: u32,
    pub _rsvd2: u32,
    pub aqa: u32,
    pub asq: u64,
    pub acq: u64,
}

#[derive(Debug, Clone, Copy)]
pub struct SubmissionQueueEntry {
    pub cdw0: u32,
    pub nsid: u32,
    pub _rsvd: [u64; 2],
    pub mptr: u64,
    pub prp1: u64,
    pub prp2: u64,
    pub cdw10: u32,
    pub cdw11: u32,
    pub cdw12: u32,
    pub cdw13: u32,
    pub cdw14: u32,
    pub cdw15: u32,
}

#[derive(Debug, Clone, Copy)]
pub struct CompletionQueueEntry {
    pub cdw0: u32,
    pub cdw1: u32,
    pub sqhd: u16,
    pub sqid: u16,
    pub cid: u16,
    pub status: u16,
}

pub const NVME_CAP_CSS_NVM: u64 = 0x20_0000_0000;
pub const NVME_CC_EN: u32 = 0x0001;
pub const NVME_CC_CSS_NVM: u32 = 0x0000;
pub const NVME_CC_MPS_SHIFT: u32 = 7;
pub const NVME_CC_IOSQES_SHIFT: u32 = 16;
pub const NVME_CC_IOCQES_SHIFT: u32 = 20;
pub const NVME_CC_AMS_RR: u32 = 0x0000;
pub const NVME_CC_SHN_NONE: u32 = 0x0000;

pub const NVME_CSTS_RDY: u32 = 0x0001;
pub const NVME_CSTS_CFS: u32 = 0x0002;

pub const NVME_OPC_ADMIN_CREATE_IO_SQ: u8 = 0x01;
pub const NVME_OPC_ADMIN_CREATE_IO_CQ: u8 = 0x05;
pub const NVME_OPC_ADMIN_IDENTIFY: u8 = 0x06;

pub const NVME_QUEUE_SIZE: u16 = 64;

/// Polls of a completion slot before a submitted command times out.
pub const COMPLETION_POLLS: u32 = 100000;

/// Register offsets used by the driver.
pub const REG_CAP: usize = 0x00;
pub const REG_CC: usize = 0x08;
pub const REG_CSTS: usize = 0x0C;
pub const REG_CQ_HEAD_DB: usize = 0x10;
pub const REG_AQA: usize = 0x14;
pub const REG_ACQ: usize = 0x18;
pub const REG_ASQ: usize = 0x20;
pub const REG_SQ_TAIL_DB: usize = 0x24;

/// Admin queue attributes: both queues 64 entries.
pub const AQA_VALUE: u32 = 0x0040_0040;
/// Controller configuration: enabled, NVM command set, 4 KiB pages (MPS
/// field 6 as written), 64-byte submission and 16-byte completion entries.
pub const CC_VALUE: u32 = 0x0046_0301;

impl SubmissionQueueEntry {
    pub open spec fn zero() -> Self {
        SubmissionQueueEntry {
            cdw0: 0,
            nsid: 0,
            _rsvd: [0u64, 0u64],
            mptr: 0,
            prp1: 0,
            prp2: 0,
            cdw10: 0,
            cdw11: 0,
            cdw12: 0,
            cdw13: 0,
            cdw14: 0,
            cdw15: 0,
        }
    }
}

impl Default for SubmissionQueueEntry {
    fn default() -> (r: Self)
        ensures
            r == SubmissionQueueEntry::zero(),
    {
        Self {
            cdw0: 0,
            nsid: 0,
            _rsvd: [0u64, 0u64],
            mptr: 0,
            prp1: 0,
            prp2: 0,
            cdw10: 0,
            cdw11: 0,
            cdw12: 0,
            cdw13: 0,
            cdw14: 0,
            cdw15: 0,
        }
    }
}

/// The identify command sent during bring-up (controller data structure).
pub open spec fn identify_command() -> SubmissionQueueEntry {
    SubmissionQueueEntry { cdw0: NVME_OPC_ADMIN_IDENTIFY as u32, nsid: 0, prp1: 0, cdw10: 1, ..SubmissionQueueEntry::zero() }
}

/// Where the controller bring-up stands.
#[derive(Debug, Clone, Copy, PartialEq, Eq, Structural)]
pub enum NvmeInit {
    Start,
    Cap,
    PollReady { n: u32 },
    CheckReady,
    Identify,
    Finished,
}

#[derive(Debug)]
pub enum NvmeStep {
    /// Perform these accesses; the value of the last read is the next input.
    Run(Vec<MmioOp>),
    /// Submit this admin command; its outcome is the next input.
    Submit(SubmissionQueueEntry),
    Done(NvmeResult<()>),
}

/// A completion entry's status word shows a new completion (phase bit).
pub open spec fn completion_posted(status: u16) -> bool {
    status & 0x01 != 0
}

/// Status code of a completion.
pub open spec fn completion_code(status: u16) -> u8 {
    ((status >> 1u16) & 0x7F) as u8
}

/// The result that a posted completion with this status word stands for.
pub open spec fn completion_result(status: u16) -> NvmeResult<()> {
    if completion_code(status) != 0 {
        Err(NvmeError::CommandFailed)
    } else {
        Ok(())
    }
}

/// One poll of a completion, from completion-queue head `head`, after
/// `polls_done` earlier polls: the new head and the outcome, `None` while
/// the wait goes on.
pub open spec fn poll_step(head: int, polls_done: int, status: u16) -> (int, Option<NvmeResult<()>>) {
    if completion_posted(status) {
        ((head + 1) % (NVME_QUEUE_SIZE as int), Some(completion_result(status)))
    } else if polls_done + 1 >= COMPLETION_POLLS {
        (head, Some(Err(NvmeError::Timeout)))
    } else {
        (head, None)
    }
}

/// Polls from the `from`-th on, the `i`-th poll reading `statuses[i]`,
/// until one ends the wait: the head and outcome then (`None` if the
/// statuses ran out first).
pub open spec fn poll_run(head: int, statuses: Seq<u16>, from: int) -> (int, Option<NvmeResult<()>>)
    decreases statuses.len() - from,
{
    if from < 0 || from >= statuses.len() {
        (head, None)
    } else {
        let (h, r) = poll_step(head, from, statuses[from]);
        if r is Some {
            (h, r)
        } else {
            poll_run(h, statuses, from + 1)
        }
    }
}

/// Index of the first status word from `from` on that shows a posted
/// completion.
pub open spec fn first_posted(statuses: Seq<u16>, from: int) -> Option<int>
    decreases statuses.len() - from,
{
    if from < 0 || from >= statuses.len() {
        None
    } else if completion_posted(statuses[from]) {
        Some(from)
    } else {
        first_posted(statuses, from + 1)
    }
}

/// Waiting for a completion over `COMPLETION_POLLS` polls: the first poll
/// that finds a completion posted ends the wait, moving the head on by one
/// and giving `completion_result` of its status word; if none does, the
/// wait ends with `Timeout` and the head where it was.
pub proof fn lemma_poll_run(head: int, statuses: Seq<u16>, from: int)
    requires
        statuses.len() == COMPLETION_POLLS,
        0 <= from <= statuses.len(),
    ensures
        poll_run(head, statuses, from) == match first_posted(statuses, from) {
            Some(k) => ((head + 1) % (NVME_QUEUE_SIZE as int), Some(completion_result(statuses[k]))),
            None => if from < statuses.len() { (head, Some(Err::<(), NvmeError>(NvmeError::Timeout))) } else { (head, None) },
        },
    decreases statuses.len() - from,
{
    if from < statuses.len() {
        if !completion_posted(statuses[from]) && from + 1 < COMPLETION_POLLS {
            lemma_poll_run(head, statuses, from + 1);
        }
    }
}

pub struct NvmeController {
    sq_tail: u16,
    cq_head: u16,
    qid: u16,
    ns_count: u32,
    initialized: bool,
    page_size: u32,
    queues_ready: bool,
}

impl NvmeController {
    pub closed spec fn spec_sq_tail(&self) -> u16 {
        self.sq_tail
    }

    pub closed spec fn spec_cq_head(&self) -> u16 {
        self.cq_head
    }

    pub closed spec fn spec_ns_count(&self) -> u32 {
        self.ns_count
    }

    pub closed spec fn spec_initialized(&self) -> bool {
        self.initialized
    }

    pub closed spec fn spec_queues_ready(&self) -> bool {
        self.queues_ready
    }

    pub closed spec fn wf(&self) -> bool {
        self.sq_tail < NVME_QUEUE_SIZE && self.cq_head < NVME_QUEUE_SIZE
    }

    pub fn new() -> (r: Self)
        ensures
            r.wf(),
            r.spec_sq_tail() == 0,
            r.spec_cq_head() == 0,
            r.spec_ns_count() == 0,
            !r.spec_initialized(),
            !r.spec_queues_ready(),
    {
        Self { sq_tail: 0, cq_head: 0, qid: 0, ns_count: 0, initialized: false, page_size: 4096, queues_ready: false }
    }

    /// One step of the bring-up. `v` is the last value read (or the outcome
    /// of the submitted command, as `cmd`). It checks the capabilities
    /// register, programs the admin queues at `cq_addr` and `sq_addr`,
    /// enables the controller and waits for it to be ready (a fatal status
    /// ends it with `InitFailed`), then submits an identify command.
    pub fn init(&mut self, st: &mut NvmeInit, v: u64, cmd: NvmeResult<()>, cq_addr: u64, sq_addr: u64) -> (r: NvmeStep)
        requires
            old(self).wf(),
        ensures
            final(self).wf(),
            final(self).spec_sq_tail() == old(self).spec_sq_tail(),
            final(self).spec_cq_head() == old(self).spec_cq_head(),
            final(self).spec_ns_count() == old(self).spec_ns_count(),
            match *old(st) {
                NvmeInit::Start => *final(st) == NvmeInit::Cap && (r matches NvmeStep::Run(o) && o@ == seq![MmioOp::Read64(REG_CAP)])
                    && final(self).spec_queues_ready() == old(self).spec_queues_ready()
                    && final(self).spec_initialized() == old(self).spec_initialized(),
                NvmeInit::Cap => if v == 0 || v == 0xFFFF_FFFF_FFFF_FFFF {
                    r == NvmeStep::Done(Err(NvmeError::NotFound)) && *final(st) == NvmeInit::Finished
                        && final(self).spec_queues_ready() == old(self).spec_queues_ready()
                        && final(self).spec_initialized() == old(self).spec_initialized()
                } else {
                    *final(st) == (NvmeInit::PollReady { n: 0 }) && final(self).spec_queues_ready()
                        && final(self).spec_initialized() == old(self).spec_initialized()
                        && (r matches NvmeStep::Run(o) && o@ == seq![
                            MmioOp::Write32(REG_AQA, AQA_VALUE),
                            MmioOp::Write64(REG_ACQ, cq_addr),
                            MmioOp::Write64(REG_ASQ, sq_addr),
                            MmioOp::Write32(REG_CC, CC_VALUE),
                            MmioOp::Read32(REG_CSTS),
                        ])
                },
                NvmeInit::PollReady { n } => final(self).spec_queues_ready() == old(self).spec_queues_ready()
                    && final(self).spec_initialized() == old(self).spec_initialized()
                    && if (v as u32) & NVME_CSTS_RDY == 0 && (v as u32) & NVME_CSTS_CFS != 0 {
                        r == NvmeStep::Done(Err(NvmeError::InitFailed)) && *final(st) == NvmeInit::Finished
                    } else if (v as u32) & NVME_CSTS_RDY != 0 || n >= POLLS_LONG - 1 {
                        *final(st) == NvmeInit::CheckReady && (r matches NvmeStep::Run(o) && o@ == seq![MmioOp::Read32(REG_CSTS)])
                    } else {
                        *final(st) == (NvmeInit::PollReady { n: (n + 1) as u32 })
                            && (r matches NvmeStep::Run(o) && o@ == seq![MmioOp::Read32(REG_CSTS)])
                    },
                NvmeInit::CheckReady => final(self).spec_queues_ready() == old(self).spec_queues_ready()
                    && final(self).spec_initialized() == old(self).spec_initialized()
                    && if (v as u32) & NVME_CSTS_RDY == 0 {
                        r == NvmeStep::Done(Err(NvmeError::InitFailed)) && *final(st) == NvmeInit::Finished
                    } else {
                        r == NvmeStep::Submit(identify_command()) && *final(st) == NvmeInit::Identify
                    },
                NvmeInit::Identify => *final(st) == NvmeInit::Finished
                    && final(self).spec_queues_ready() == old(self).spec_queues_ready()
                    && match cmd {
                        Err(e) => r == NvmeStep::Done(Err(e)) && final(self).spec_initialized() == old(self).spec_initialized(),
                        Ok(()) => r == NvmeStep::Done(Ok(())) && final(self).spec_initialized(),
                    },
                NvmeInit::Finished => *final(st) == NvmeInit::Finished && r == NvmeStep::Done(Ok(()))
                    && final(self).spec_queues_ready() == old(self).spec_queues_ready()
                    && final(self).spec_initialized() == old(self).spec_initialized(),
            },
    {
        let csts = #[verifier::truncate] (v as u32);
        let mut ops: Vec<MmioOp> = Vec::new();
        match *st {
            NvmeInit::Start => {
                ops.push(MmioOp::Read64(REG_CAP));
                *st = NvmeInit::Cap;
                assert(ops@ =~= seq![MmioOp::Read64(REG_CAP)]);
            },
            NvmeInit::Cap => {
                if v == 0 || v == 0xFFFF_FFFF_FFFF_FFFF {
                    *st = NvmeInit::Finished;
                    return NvmeStep::Done(Err(NvmeError::NotFound));
                }
                self.queues_ready = true;
                ops.push(MmioOp::Write32(REG_AQA, AQA_VALUE));
                ops.push(MmioOp::Write64(REG_ACQ, cq_addr));
                ops.push(MmioOp::Write64(REG_ASQ, sq_addr));
                ops.push(MmioOp::Write32(REG_CC, CC_VALUE));
                ops.push(MmioOp::Read32(REG_CSTS));
                *st = NvmeInit::PollReady { n: 0 };
                assert(ops@ =~= seq![
                    MmioOp::Write32(REG_AQA, AQA_VALUE),
                    MmioOp::Write64(REG_ACQ, cq_addr),
                    MmioOp::Write64(REG_ASQ, sq_addr),
                    MmioOp::Write32(REG_CC, CC_VALUE),
                    MmioOp::Read32(REG_CSTS),
                ]);
            },
            NvmeInit::PollReady { n } => {
                if csts & NVME_CSTS_RDY == 0 && csts & NVME_CSTS_CFS != 0 {
                    *st = NvmeInit::Finished;
                    return NvmeStep::Done(Err(NvmeError::InitFailed));
                }
                ops.push(MmioOp::Read32(REG_CSTS));
                if csts & NVME_CSTS_RDY != 0 || n >= POLLS_LONG - 1 {
                    *st = NvmeInit::CheckReady;
                } else {
                    *st = NvmeInit::PollReady { n: n + 1 };
                }
                assert(ops@ =~= seq![MmioOp::Read32(REG_CSTS)]);
            },
            NvmeInit::CheckReady => {
                if csts & NVME_CSTS_RDY == 0 {
                    *st = NvmeInit::Finished;
                    return NvmeStep::Done(Err(NvmeError::InitFailed));
                }
                *st = NvmeInit::Identify;
                let identify = SubmissionQueueEntry {
                    cdw0: NVME_OPC_ADMIN_IDENTIFY as u32,
                    nsid: 0,
                    prp1: 0,
                    cdw10: 1,
                    ..SubmissionQueueEntry::default()
                };
                return NvmeStep::Submit(identify);
            },
            NvmeInit::Identify => {
                *st = NvmeInit::Finished;
                match cmd {
                    Err(e) => {
                        return NvmeStep::Done(Err(e));
                    },
                    Ok(()) => {
                        self.initialized = true;
                        return NvmeStep::Done(Ok(()));
                    },
                }
            },
            NvmeInit::Finished => {
                return NvmeStep::Done(Ok(()));
            },
        }
        NvmeStep::Run(ops)
    }

    /// Places a command: the submission slot to write it to, and the new
    /// tail, which goes to the tail doorbell.
    pub fn submit_command(&mut self, cmd: &SubmissionQueueEntry) -> (r: (usize, u16))
        requires
            old(self).wf(),
        ensures
            final(self).wf(),
            r.0 == old(self).spec_sq_tail() as usize,
            r.1 == (old(self).spec_sq_tail() + 1) % (NVME_QUEUE_SIZE as int),
            final(self).spec_sq_tail() == r.1,
            final(self).spec_cq_head() == old(self).spec_cq_head(),
            final(self).spec_ns_count() == old(self).spec_ns_count(),
            final(self).spec_initialized() == old(self).spec_initialized(),
            final(self).spec_queues_ready() == old(self).spec_queues_ready(),
    {
        let slot = (self.sq_tail as usize) % (NVME_QUEUE_SIZE as usize);
        self.sq_tail = (self.sq_tail + 1) % NVME_QUEUE_SIZE;
        (slot, self.sq_tail)
    }

    /// Completion slot to look at.
    pub fn completion_slot(&self) -> (r: usize)
        requires
            self.wf(),
        ensures
            r == self.spec_cq_head(),
    {
        self.cq_head as usize
    }

    /// Checks the status word of the current completion slot: `None` while
    /// nothing was posted; otherwise the head moves on (its new value goes
    /// to the head doorbell) and a nonzero status code is `CommandFailed`.
    pub fn completion(&mut self, status: u16) -> (r: Option<NvmeResult<()>>)
        requires
            old(self).wf(),
        ensures
            final(self).wf(),
            final(self).spec_sq_tail() == old(self).spec_sq_tail(),
            final(self).spec_ns_count() == old(self).spec_ns_count(),
            final(self).spec_initialized() == old(self).spec_initialized(),
            final(self).spec_queues_ready() == old(self).spec_queues_ready(),
            !completion_posted(status) ==> r is None && final(self).spec_cq_head() == old(self).spec_cq_head(),
            completion_posted(status) ==> final(self).spec_cq_head() == (old(self).spec_cq_head() + 1) % (NVME_QUEUE_SIZE as int)
                && r == Some(if completion_code(status) != 0 {
                    Err::<(), NvmeError>(NvmeError::CommandFailed)
                } else {
                    Ok(())
                }),
    {
        if status & 0x01 == 0 {
            return None;
        }
        let code = #[verifier::truncate] (((status >> 1u16) & 0x7F) as u8);
        self.cq_head = (self.cq_head + 1) % NVME_QUEUE_SIZE;
        if code != 0 {
            Some(Err(NvmeError::CommandFailed))
        } else {
            Some(Ok(()))
        }
    }

    /// One poll of a submitted command's completion: `status` is the
    /// status word of the current completion slot, read after `polls_done`
    /// earlier polls found nothing. A posted completion is judged as
    /// `completion` does; otherwise the wait goes on (`None`) until
    /// `COMPLETION_POLLS` polls have found nothing, which ends it with
    /// `Timeout` and leaves the head where it was.
    pub fn poll_completion(&mut self, polls_done: u32, status: u16) -> (r: Option<NvmeResult<()>>)
        requires
            old(self).wf(),
            polls_done < COMPLETION_POLLS,
        ensures
            final(self).wf(),
            final(self).spec_sq_tail() == old(self).spec_sq_tail(),
            final(self).spec_ns_count() == old(self).spec_ns_count(),
            final(self).spec_initialized() == old(self).spec_initialized(),
            final(self).spec_queues_ready() == old(self).spec_queues_ready(),
            (final(self).spec_cq_head() as int, r) == poll_step(old(self).spec_cq_head() as int, polls_done as int, status),
    {
        match self.completion(status) {
            Some(res) => Some(res),
            None => {
                if polls_done + 1 >= COMPLETION_POLLS {
                    Some(Err(NvmeError::Timeout))
                } else {
                    None
                }
            },
        }
    }

    /// Head doorbell value.
    pub fn cq_head(&self) -> (r: u16)
        ensures
            r == self.spec_cq_head(),
    {
        self.cq_head
    }

    /// Create I/O Completion Queue command (physically contiguous,
    /// interrupts enabled).
    pub fn create_io_cq(&self, cq_id: u16, size: u16, addr: u64) -> (r: SubmissionQueueEntry)
        requires
            size >= 1,
        ensures
            r == (SubmissionQueueEntry {
                cdw0: (NVME_OPC_ADMIN_CREATE_IO_CQ as u32) | 0x70000u32,
                prp1: addr,
                cdw10: (cq_id as u32) | (((size - 1) as u32) << 16u32),
                cdw11: 0x0003,
                ..SubmissionQueueEntry::zero()
            }),
    {
        let mut cmd = SubmissionQueueEntry::default();
        cmd.cdw0 = (NVME_OPC_ADMIN_CREATE_IO_CQ as u32) | 0x70000u32;
        cmd.prp1 = addr;
        cmd.cdw10 = (cq_id as u32) | (((size as u32) - 1) << 16u32);
        cmd.cdw11 = 0x0003;
        cmd
    }

    /// Create I/O Submission Queue command bound to completion queue `cq_id`.
    pub fn create_io_sq(&self, sq_id: u16, size: u16, addr: u64, cq_id: u16) -> (r: SubmissionQueueEntry)
        requires
            size >= 1,
        ensures
            r == (SubmissionQueueEntry {
                cdw0: (NVME_OPC_ADMIN_CREATE_IO_SQ as u32) | 0x70000u32,
                prp1: addr,
                cdw10: (sq_id as u32) | (((size - 1) as u32) << 16u32),
                cdw11: (cq_id as u32) | 0x10000u32,
                ..SubmissionQueueEntry::zero()
            }),
    {
        let mut cmd = SubmissionQueueEntry::default();
        cmd.cdw0 = (NVME_OPC_ADMIN_CREATE_IO_SQ as u32) | 0x70000u32;
        cmd.prp1 = addr;
        cmd.cdw10 = (sq_id as u32) | (((size as u32) - 1) << 16u32);
        cmd.cdw11 = (cq_id as u32) | 0x10000u32;
        cmd
    }

    pub fn namespace_count(&self) -> (r: u32)
        ensures
            r == self.spec_ns_count(),
    {
        self.ns_count
    }

    /// Block reads are not implemented.
    pub fn read_blocks(&self, nsid: u32, lba: u64, count: u16, buf: u64) -> (r: NvmeResult<()>)
        requires
            count >= 1,
        ensures
            r == Err::<(), NvmeError>(NvmeError::CommandFailed),
    {
        let cmd = io_command(0x02, nsid, lba, count, buf);
        Err(NvmeError::CommandFailed)
    }

    /// Block writes are not implemented.
    pub fn write_blocks(&self, nsid: u32, lba: u64, count: u16, buf: u64) -> (r: NvmeResult<()>)
        requires
            count >= 1,
        ensures
            r == Err::<(), NvmeError>(NvmeError::CommandFailed),
    {
        let cmd = io_command(0x01, nsid, lba, count, buf);
        Err(NvmeError::CommandFailed)
    }
}

/// Read or write command for `count` blocks from `lba`.
pub fn io_command(opcode: u32, nsid: u32, lba: u64, count: u16, buf: u64) -> (r: SubmissionQueueEntry)
    requires
        count >= 1,
    ensures
        r == (SubmissionQueueEntry {
            cdw0: opcode,
            nsid,
            prp1: buf,
            cdw10: lba as u32,
            cdw11: (lba >> 32u64) as u32,
            cdw12: (count - 1) as u32,
            ..SubmissionQueueEntry::zero()
        }),
{
    let mut cmd = SubmissionQueueEntry::default();
    cmd.cdw0 = opcode;
    cmd.nsid = nsid;
    cmd.prp1 = buf;
    cmd.cdw10 = #[verifier::truncate] (lba as u32);
    cmd.cdw11 = #[verifier::truncate] ((lba >> 32u64) as u32);
    cmd.cdw12 = (count as u32) - 1;
    cmd
}

/// The configuration value written by the bring-up is the one its fields
/// name.
pub proof fn lemma_cc_value()
    ensures
        ((NVME_CC_EN | NVME_CC_CSS_NVM) | (6u32 << NVME_CC_MPS_SHIFT)) | (6u32 << NVME_CC_IOSQES_SHIFT)
            | (4u32 << NVME_CC_IOCQES_SHIFT) == CC_VALUE,
        ((NVME_QUEUE_SIZE as u32) << 16u32) | (NVME_QUEUE_SIZE as u32) == AQA_VALUE,
{
    assert(((0x0001u32 | 0x0000u32) | (6u32 << 7u32)) | (6u32 << 16u32) | (4u32 << 20u32) == 0x0046_0301u32) by (bit_vector);
    assert((64u32 << 16u32) | 64u32 == 0x0040_0040u32) by (bit_vector);
}

} // verus!
