//! Driver core for the ARM System Memory Management Unit, version 3
//! (SMMUv3): a linear Stream Table, the Command Queue protocol, and the
//! bring-up state machine.
//!
//! The driver owns the Stream Table and queue contents and decides every
//! register value and the order of every register write; the platform layer
//! performs the volatile MMIO stores it is handed, mirrors shared memory,
//! and feeds register reads back in. Every write the driver ever emits is
//! recorded in a ghost history, over which the bring-up ordering rules are
//! stated and proved.

use vstd::prelude::*;

use vstd::arithmetic::power2::pow2;

pub mod addr;
pub mod hal;
pub mod queue;
pub mod regs;
pub mod stream_table;

use crate::addr::pa_val;
use crate::hal::PagingHandler;
use crate::queue::{Cmd, Queue, CMDQ_CFGI_1_LEAF, CMD_CFGI_STE, CMD_PREFETCH_CONFIG};
use crate::regs::{
    cmdq_base_value, cr1_value, spec_cmdq_base_value, spec_cons_err, spec_cons_rd,
    spec_idr0_st_level, spec_idr1_sidsize, spec_strtab_base_cfg_value, spec_strtab_base_value,
    strtab_base_cfg_value, strtab_base_value, Reg, RegWrite, CR0_CMDQEN, CR0_SMMUEN,
    CR2_VALID_DEFAULT,
};
use crate::stream_table::{LinearStreamTable, STRTAB_STE_SIZE};

verus! {

/// Bounded number of `CR0ACK` polls before an acknowledge is declared lost.
pub const ARM_SMMU_SYNC_TIMEOUT: usize = 0x1000000;

/// 4 KiB, the allocation granule of the platform handler.
pub const PAGE_SIZE_4K: usize = 4096;

/// The driver's error kinds.
#[derive(Clone, Copy, Debug, PartialEq, Eq, Structural)]
pub enum SmmuError {
    /// The hardware advertises only linear Stream Tables while using 7 or
    /// more StreamID bits; that exceeds this driver's capability.
    CapabilityMismatch,
    /// The platform allocator returned no pages, or a region that the
    /// architectural alignment rules refuse.
    AllocationFailure,
    /// `CR0ACK` did not reflect `CR0` within the bounded polling budget.
    AckTimeout,
    /// A non-zero `CMDQ_CONS.ERR` code observed while draining; the payload
    /// is the literal error code.
    CommandError(u32),
    /// Event Queue activity observed while draining: a translation fault,
    /// fatal for the current operation.
    EventQueueActivity,
}

/// The bring-up phases. `CmdqEnPending` and `SmmuEnPending` are the bounded
/// `CR0ACK` polls inside the `Probed -> QueuesProgrammed` and
/// `StreamTableProgrammed -> Ready` transitions; `Ready` is the enabled,
/// running driver; `Failed` is quiescent after a fatal bring-up error.
#[derive(Clone, Copy, Debug, PartialEq, Eq, Structural)]
pub enum DriverState {
    /// Constructed, nothing probed yet.
    Fresh,
    /// Hardware capabilities read and accepted.
    Probed,
    /// Command Queue programmed; awaiting `CR0ACK.CMDQEN`.
    CmdqEnPending,
    /// Command Queue enabled and acknowledged.
    QueuesProgrammed,
    /// Stream Table seeded and its base registers written.
    StreamTableProgrammed,
    /// Enable written; awaiting `CR0ACK.SMMUEN` and `CR0ACK.CMDQEN`.
    SmmuEnPending,
    /// Enabled and accepting `add_device`.
    Ready,
    /// Quiescent after a fatal bring-up error.
    Failed,
}

/// The write is to `STRTAB_BASE` or `STRTAB_BASE_CFG`.
pub open spec fn is_strtab_write(op: RegWrite) -> bool {
    ||| (op matches RegWrite::W64(r, _) && r == Reg::StrtabBase)
    ||| (op matches RegWrite::W32(r, _) && r == Reg::StrtabBaseCfg)
}

/// The write is to `CMDQ_BASE`.
pub open spec fn is_cmdq_base_write(op: RegWrite) -> bool {
    op matches RegWrite::W64(r, _) && r == Reg::CmdqBase
}

/// The write sets `CR0.SMMUEN`.
pub open spec fn enables_smmu(op: RegWrite) -> bool {
    op matches RegWrite::W32(r, v) && r == Reg::Cr0 && v & CR0_SMMUEN != 0
}

/// The write sets `CR0.CMDQEN`.
pub open spec fn enables_cmdq(op: RegWrite) -> bool {
    op matches RegWrite::W32(r, v) && r == Reg::Cr0 && v & CR0_CMDQEN != 0
}

/// The architectural bring-up ordering over a history of register writes:
/// `STRTAB_BASE` and `STRTAB_BASE_CFG` are written only while `CR0.SMMUEN`
/// is still zero, and `CMDQ_BASE` only while `CR0.CMDQEN` is still zero.
pub open spec fn bringup_ordering_ok(h: Seq<RegWrite>) -> bool {
    &&& forall|i: int, j: int|
        0 <= i < h.len() && 0 <= j < h.len() && is_strtab_write(#[trigger] h[i]) && enables_smmu(
            #[trigger] h[j],
        ) ==> i < j
    &&& forall|i: int, j: int|
        0 <= i < h.len() && 0 <= j < h.len() && is_cmdq_base_write(#[trigger] h[i])
            && enables_cmdq(#[trigger] h[j]) ==> i < j
}

/// No write in the history sets `CR0.SMMUEN` yet.
pub open spec fn no_smmu_enable(h: Seq<RegWrite>) -> bool {
    forall|i: int| 0 <= i < h.len() ==> !enables_smmu(#[trigger] h[i])
}

/// No write in the history sets `CR0.CMDQEN` yet.
pub open spec fn no_cmdq_enable(h: Seq<RegWrite>) -> bool {
    forall|i: int| 0 <= i < h.len() ==> !enables_cmdq(#[trigger] h[i])
}

/// Appending writes that neither touch the guarded base registers nor
/// enable anything guarded out of order preserves the bring-up ordering.
proof fn lemma_ordering_extend(h: Seq<RegWrite>, ops: Seq<RegWrite>)
    requires
        bringup_ordering_ok(h),
        forall|k: int|
            0 <= k < ops.len() && is_strtab_write(#[trigger] ops[k]) ==> no_smmu_enable(h)
                && no_smmu_enable(ops),
        forall|k: int|
            0 <= k < ops.len() && is_cmdq_base_write(#[trigger] ops[k]) ==> no_cmdq_enable(h),
        forall|k: int, l: int|
            0 <= k < ops.len() && 0 <= l < ops.len() && is_cmdq_base_write(#[trigger] ops[k])
                && enables_cmdq(#[trigger] ops[l]) ==> k < l,
    ensures
        bringup_ordering_ok(h + ops),
{
    let hh = h + ops;
    assert forall|i: int, j: int|
        0 <= i < hh.len() && 0 <= j < hh.len() && is_strtab_write(#[trigger] hh[i])
            && enables_smmu(#[trigger] hh[j]) implies i < j by {
        if i < h.len() {
            if j < h.len() {
            } else {
                assert(i < j);
            }
        } else {
            assert(is_strtab_write(ops[i - h.len()]));
            if j < h.len() {
                assert(!enables_smmu(h[j]));
            } else {
                assert(!enables_smmu(ops[j - h.len()]));
            }
        }
    }
    assert forall|i: int, j: int|
        0 <= i < hh.len() && 0 <= j < hh.len() && is_cmdq_base_write(#[trigger] hh[i])
            && enables_cmdq(#[trigger] hh[j]) implies i < j by {
        if i < h.len() {
            if j >= h.len() {
                assert(i < j);
            }
        } else {
            assert(is_cmdq_base_write(ops[i - h.len()]));
            if j < h.len() {
                assert(!enables_cmdq(h[j]));
            } else {
                assert(ops[i - h.len()] == hh[i]);
                assert(ops[j - h.len()] == hh[j]);
            }
        }
    }
}

/// The bring-up stage as a number, for stating which components are live.
pub open spec fn stage_of(s: DriverState) -> int {
    match s {
        DriverState::Fresh => 0,
        DriverState::Probed => 1,
        DriverState::CmdqEnPending => 2,
        DriverState::QueuesProgrammed => 3,
        DriverState::StreamTableProgrammed => 4,
        DriverState::SmmuEnPending => 5,
        DriverState::Ready => 6,
        DriverState::Failed => 7,
    }
}

/// SMMUv3 driver with a linear Stream Table and a Command Queue.
///
/// The register window itself stays with the platform layer: the driver
/// emits [`RegWrite`] lists and consumes the values of register reads.
pub struct SMMUv3<H: PagingHandler> {
    /// The linear Stream Table.
    pub stream_table: LinearStreamTable,
    /// The Command Queue.
    pub cmd_queue: Queue,
    /// The Event Queue (programmed, never drained by this core).
    pub event_queue: Queue,
    /// Bring-up phase.
    pub state: DriverState,
    /// Remaining `CR0ACK` polls in the pending phases.
    pub polls_left: usize,
    /// Every register write this driver has emitted, in order.
    pub hist: Ghost<Seq<RegWrite>>,
    /// Ties the driver to its platform handler.
    pub _marker: core::marker::PhantomData<H>,
}

impl<H: PagingHandler> SMMUv3<H> {
    /// The driver's invariant: the components that the current phase has
    /// initialized are well-formed, and the emitted write history obeys the
    /// architectural bring-up ordering.
    pub open spec fn wf(self) -> bool {
        &&& bringup_ordering_ok(self.hist@)
        &&& 2 <= stage_of(self.state) <= 6 ==> self.cmd_queue.wf()
        &&& 4 <= stage_of(self.state) <= 6 ==> self.stream_table.wf()
        &&& 5 <= stage_of(self.state) <= 6 ==> self.event_queue.wf()
        &&& stage_of(self.state) <= 4 ==> no_smmu_enable(self.hist@)
        &&& stage_of(self.state) <= 1 ==> no_cmdq_enable(self.hist@)
    }

    /// A fresh driver: nothing probed, nothing programmed, no writes
    /// emitted.
    pub fn new() -> (d: SMMUv3<H>)
        ensures
            d.wf(),
            d.state == DriverState::Fresh,
            d.hist@ == Seq::<RegWrite>::empty(),
    {
        SMMUv3 {
            stream_table: LinearStreamTable::uninit(),
            cmd_queue: Queue::uninit(),
            event_queue: Queue::uninit(),
            state: DriverState::Fresh,
            polls_left: 0,
            hist: Ghost(Seq::empty()),
            _marker: core::marker::PhantomData,
        }
    }

    /// `Fresh -> Probed`: judge the hardware's capabilities from `IDR0` and
    /// `IDR1`. A platform that needs 7 or more StreamID bits but offers only
    /// linear Stream Tables exceeds this driver's capability.
    pub fn probe(&mut self, idr0: u32, idr1: u32) -> (r: Result<(), SmmuError>)
        requires
            old(self).wf(),
            old(self).state == DriverState::Fresh,
        ensures
            final(self).wf(),
            final(self).hist@ == old(self).hist@,
            r is Err <==> (spec_idr1_sidsize(idr1) >= 7 && spec_idr0_st_level(idr0) == 0),
            r is Err ==> r == Result::<(), SmmuError>::Err(SmmuError::CapabilityMismatch) && final(self).state == DriverState::Failed,
            r is Ok ==> final(self).state == DriverState::Probed,
            *final(self) == (SMMUv3 { state: final(self).state, ..*old(self) }),
    {
        let sid_max_bits: u32 = crate::regs::idr1_sidsize(idr1);
        let st_level: u32 = crate::regs::idr0_st_level(idr0);
        if sid_max_bits >= 7 && st_level == 0 {
            self.state = DriverState::Failed;
            Err(SmmuError::CapabilityMismatch)
        } else {
            self.state = DriverState::Probed;
            Ok(())
        }
    }

    /// `Probed -> CmdqEnPending`: allocate the Command Queue region, seed
    /// the queue, and emit the programming sequence: `CMDQ_BASE`, then the
    /// zero `CMDQ_PROD` and `CMDQ_CONS`, then `CR0.CMDQEN = 1`. The platform
    /// layer must issue the writes in list order and then poll with
    /// [`Self::cmdq_ack_step`].
    pub fn program_cmd_queue(&mut self) -> (r: Result<Vec<RegWrite>, SmmuError>)
        requires
            old(self).wf(),
            old(self).state == DriverState::Probed,
        ensures
            final(self).wf(),
            r matches Ok(ws) ==> {
                &&& final(self).state == DriverState::CmdqEnPending
                &&& final(self).cmd_queue.wf()
                &&& final(self).cmd_queue.qs == (if H::spec_cmdq_eventq_bits_set()
                    <= crate::queue::MAX_CMD_EVENT_QS {
                    H::spec_cmdq_eventq_bits_set()
                } else {
                    crate::queue::MAX_CMD_EVENT_QS
                })
                &&& final(self).cmd_queue.prod == 0u32
                &&& final(self).cmd_queue.cons == 0u32
                &&& ws@ == seq![
                    RegWrite::W64(
                        Reg::CmdqBase,
                        spec_cmdq_base_value(
                            final(self).cmd_queue.base as u64,
                            final(self).cmd_queue.qs,
                        ),
                    ),
                    RegWrite::W32(Reg::CmdqProd, 0u32),
                    RegWrite::W32(Reg::CmdqCons, 0u32),
                    RegWrite::W32(Reg::Cr0, CR0_CMDQEN),
                ]
                &&& final(self).hist@ == old(self).hist@ + ws@
                &&& final(self).polls_left == ARM_SMMU_SYNC_TIMEOUT
                &&& final(self).stream_table == old(self).stream_table
            },
            r matches Err(e) ==> e == SmmuError::AllocationFailure && final(self).state
                == DriverState::Failed && final(self).hist@ == old(self).hist@,
    {
        let qs: u32 = H::cmdq_eventq_bits_set();
        let qs_eff: u32 = if qs < crate::queue::MAX_CMD_EVENT_QS {
            qs
        } else {
            crate::queue::MAX_CMD_EVENT_QS
        };
        let base: usize = match self.alloc_queue_region(qs_eff) {
            Ok(b) => b,
            Err(e) => {
                self.state = DriverState::Failed;
                return Err(e);
            },
        };
        self.cmd_queue.init(qs_eff, base);
        let v: u64 = cmdq_base_value(base as u64, qs_eff);
        let mut ws: Vec<RegWrite> = Vec::new();
        ws.push(RegWrite::W64(Reg::CmdqBase, v));
        ws.push(RegWrite::W32(Reg::CmdqProd, self.cmd_queue.prod_value()));
        ws.push(RegWrite::W32(Reg::CmdqCons, self.cmd_queue.cons_value()));
        ws.push(RegWrite::W32(Reg::Cr0, CR0_CMDQEN));
        proof {
            assert(CR0_CMDQEN & CR0_SMMUEN == 0u32) by (bit_vector);
            assert(forall|k: int| 0 <= k < ws@.len() ==> !is_strtab_write(#[trigger] ws@[k]));
            assert(forall|k: int| 0 <= k < ws@.len() ==> !enables_smmu(#[trigger] ws@[k]));
            assert(forall|k: int|
                0 <= k < ws@.len() && is_cmdq_base_write(#[trigger] ws@[k]) ==> k == 0);
            assert(forall|k: int| 0 <= k < ws@.len() && enables_cmdq(#[trigger] ws@[k]) ==> k == 3);
            lemma_ordering_extend(self.hist@, ws@);
        }
        self.hist = Ghost(self.hist@ + ws@);
        self.polls_left = ARM_SMMU_SYNC_TIMEOUT;
        self.state = DriverState::CmdqEnPending;
        Ok(ws)
    }

    /// `CmdqEnPending -> QueuesProgrammed`: one bounded poll of `CR0ACK`.
    /// `Ok(true)` when `CMDQEN` is acknowledged; `Ok(false)` asks the caller
    /// to read `CR0ACK` again; `Err(AckTimeout)` after the polling budget is
    /// spent, which is fatal.
    pub fn cmdq_ack_step(&mut self, cr0ack: u32) -> (r: Result<bool, SmmuError>)
        requires
            old(self).wf(),
            old(self).state == DriverState::CmdqEnPending,
        ensures
            final(self).wf(),
            final(self).hist@ == old(self).hist@,
            cr0ack & CR0_CMDQEN != 0 ==> r == Result::<bool, SmmuError>::Ok(true) && final(self).state == DriverState::QueuesProgrammed,
            cr0ack & CR0_CMDQEN == 0 && old(self).polls_left > 0 ==> r == Result::<
                bool,
                SmmuError,
            >::Ok(false) && final(self).state == DriverState::CmdqEnPending && final(self).polls_left == old(self).polls_left - 1,
            cr0ack & CR0_CMDQEN == 0 && old(self).polls_left == 0 ==> r == Result::<
                bool,
                SmmuError,
            >::Err(SmmuError::AckTimeout) && final(self).state == DriverState::Failed,
            *final(self) == (SMMUv3 {
                state: final(self).state,
                polls_left: final(self).polls_left,
                ..*old(self)
            }),
    {
        if cr0ack & CR0_CMDQEN != 0 {
            self.state = DriverState::QueuesProgrammed;
            Ok(true)
        } else if self.polls_left > 0 {
            self.polls_left = self.polls_left - 1;
            Ok(false)
        } else {
            self.state = DriverState::Failed;
            Err(SmmuError::AckTimeout)
        }
    }

    /// `QueuesProgrammed -> StreamTableProgrammed`: allocate the Stream
    /// Table region, seed every entry with the bypass template, flush the
    /// table down to memory shared with the SMMU, and emit
    /// `STRTAB_BASE_CFG` then `STRTAB_BASE` — both while `CR0.SMMUEN` is
    /// still zero.
    pub fn stream_table_init(&mut self) -> (r: Result<Vec<RegWrite>, SmmuError>)
        requires
            old(self).wf(),
            old(self).state == DriverState::QueuesProgrammed,
            H::spec_sid_bits_set() < 26,
        ensures
            final(self).wf(),
            r matches Ok(ws) ==> {
                &&& final(self).state == DriverState::StreamTableProgrammed
                &&& final(self).stream_table.wf()
                &&& final(self).stream_table.sid_bits == H::spec_sid_bits_set()
                &&& forall|sid: int|
                    0 <= sid < final(self).stream_table.entry_count ==> final(self).stream_table.is_bypass(sid)
                &&& ws@ == seq![
                    RegWrite::W32(
                        Reg::StrtabBaseCfg,
                        spec_strtab_base_cfg_value(H::spec_sid_bits_set()),
                    ),
                    RegWrite::W64(
                        Reg::StrtabBase,
                        spec_strtab_base_value(final(self).stream_table.base as u64),
                    ),
                ]
                &&& final(self).hist@ == old(self).hist@ + ws@
                &&& final(self).cmd_queue == old(self).cmd_queue
            },
            r matches Err(e) ==> e == SmmuError::AllocationFailure && final(self).state
                == DriverState::Failed && final(self).hist@ == old(self).hist@,
    {
        let sid_bits: u32 = H::sid_bits_set();
        let base: usize = match self.alloc_table_region(sid_bits) {
            Ok(b) => b,
            Err(e) => {
                self.state = DriverState::Failed;
                return Err(e);
            },
        };
        self.stream_table.init(sid_bits, base);
        let bytes: usize = STRTAB_STE_SIZE << sid_bits;
        H::flush(base, bytes);
        let mut ws: Vec<RegWrite> = Vec::new();
        ws.push(RegWrite::W32(Reg::StrtabBaseCfg, strtab_base_cfg_value(sid_bits)));
        ws.push(RegWrite::W64(Reg::StrtabBase, strtab_base_value(base as u64)));
        proof {
            assert(forall|k: int| 0 <= k < ws@.len() ==> !enables_smmu(#[trigger] ws@[k]));
            assert(forall|k: int| 0 <= k < ws@.len() ==> !enables_cmdq(#[trigger] ws@[k]));
            assert(forall|k: int| 0 <= k < ws@.len() ==> !is_cmdq_base_write(#[trigger] ws@[k]));
            lemma_ordering_extend(self.hist@, ws@);
        }
        self.hist = Ghost(self.hist@ + ws@);
        self.state = DriverState::StreamTableProgrammed;
        Ok(ws)
    }

    /// `StreamTableProgrammed -> SmmuEnPending`: allocate and program the
    /// Event Queue, set the table and queue memory attributes in `CR1`, the
    /// platform default in `CR2`, and finally write `CR0 = SMMUEN | CMDQEN`.
    /// The platform layer then polls with [`Self::enable_ack_step`].
    pub fn enable(&mut self) -> (r: Result<Vec<RegWrite>, SmmuError>)
        requires
            old(self).wf(),
            old(self).state == DriverState::StreamTableProgrammed,
        ensures
            final(self).wf(),
            r matches Ok(ws) ==> {
                &&& final(self).state == DriverState::SmmuEnPending
                &&& final(self).event_queue.wf()
                &&& ws@ == seq![
                    RegWrite::W64(
                        Reg::EventqBase,
                        spec_cmdq_base_value(
                            final(self).event_queue.base as u64,
                            final(self).event_queue.qs,
                        ),
                    ),
                    RegWrite::W32(Reg::EventqProd, 0u32),
                    RegWrite::W32(Reg::EventqCons, 0u32),
                    RegWrite::W32(Reg::Cr1, crate::regs::spec_cr1_value()),
                    RegWrite::W32(Reg::Cr2, CR2_VALID_DEFAULT),
                    RegWrite::W32(Reg::Cr0, CR0_SMMUEN | CR0_CMDQEN),
                ]
                &&& final(self).hist@ == old(self).hist@ + ws@
                &&& final(self).polls_left == ARM_SMMU_SYNC_TIMEOUT
                &&& final(self).stream_table == old(self).stream_table
                &&& final(self).cmd_queue == old(self).cmd_queue
            },
            r matches Err(e) ==> e == SmmuError::AllocationFailure && final(self).state
                == DriverState::Failed && final(self).hist@ == old(self).hist@,
    {
        let qs: u32 = H::cmdq_eventq_bits_set();
        let qs_eff: u32 = if qs < crate::queue::MAX_CMD_EVENT_QS {
            qs
        } else {
            crate::queue::MAX_CMD_EVENT_QS
        };
        let base: usize = match self.alloc_queue_region(qs_eff) {
            Ok(b) => b,
            Err(e) => {
                self.state = DriverState::Failed;
                return Err(e);
            },
        };
        self.event_queue.init(qs_eff, base);
        let v: u64 = cmdq_base_value(base as u64, qs_eff);
        let mut ws: Vec<RegWrite> = Vec::new();
        ws.push(RegWrite::W64(Reg::EventqBase, v));
        ws.push(RegWrite::W32(Reg::EventqProd, self.event_queue.prod_value()));
        ws.push(RegWrite::W32(Reg::EventqCons, self.event_queue.cons_value()));
        ws.push(RegWrite::W32(Reg::Cr1, cr1_value()));
        ws.push(RegWrite::W32(Reg::Cr2, CR2_VALID_DEFAULT));
        ws.push(RegWrite::W32(Reg::Cr0, CR0_SMMUEN | CR0_CMDQEN));
        proof {
            assert(forall|k: int| 0 <= k < ws@.len() ==> !is_strtab_write(#[trigger] ws@[k]));
            assert(forall|k: int| 0 <= k < ws@.len() ==> !is_cmdq_base_write(#[trigger] ws@[k]));
            lemma_ordering_extend(self.hist@, ws@);
        }
        self.hist = Ghost(self.hist@ + ws@);
        self.polls_left = ARM_SMMU_SYNC_TIMEOUT;
        self.state = DriverState::SmmuEnPending;
        Ok(ws)
    }

    /// `SmmuEnPending -> Ready`: one bounded poll of `CR0ACK` for both
    /// `SMMUEN` and `CMDQEN`. `Ok(true)` when both are acknowledged;
    /// `Ok(false)` asks for another read; `Err(AckTimeout)` after the budget
    /// is spent — the error is reported and the driver stays quiescent.
    pub fn enable_ack_step(&mut self, cr0ack: u32) -> (r: Result<bool, SmmuError>)
        requires
            old(self).wf(),
            old(self).state == DriverState::SmmuEnPending,
        ensures
            final(self).wf(),
            final(self).hist@ == old(self).hist@,
            cr0ack & CR0_SMMUEN != 0 && cr0ack & CR0_CMDQEN != 0 ==> r == Result::<
                bool,
                SmmuError,
            >::Ok(true) && final(self).state == DriverState::Ready,
            !(cr0ack & CR0_SMMUEN != 0 && cr0ack & CR0_CMDQEN != 0) && old(self).polls_left > 0
                ==> r == Result::<bool, SmmuError>::Ok(false) && final(self).state
                == DriverState::SmmuEnPending && final(self).polls_left == old(self).polls_left
                - 1,
            !(cr0ack & CR0_SMMUEN != 0 && cr0ack & CR0_CMDQEN != 0) && old(self).polls_left == 0
                ==> r == Result::<bool, SmmuError>::Err(SmmuError::AckTimeout) && final(self).state == DriverState::Failed,
            *final(self) == (SMMUv3 {
                state: final(self).state,
                polls_left: final(self).polls_left,
                ..*old(self)
            }),
    {
        if cr0ack & CR0_SMMUEN != 0 && cr0ack & CR0_CMDQEN != 0 {
            self.state = DriverState::Ready;
            Ok(true)
        } else if self.polls_left > 0 {
            self.polls_left = self.polls_left - 1;
            Ok(false)
        } else {
            self.state = DriverState::Failed;
            Err(SmmuError::AckTimeout)
        }
    }

    /// The SMMU architecture version, from the value of `AIDR`.
    pub fn version(&self, aidr: u32) -> (r: &'static str)
        ensures
            crate::regs::spec_aidr_minor_rev(aidr) == 0 ==> r@ == "SMMUv3.0"@,
            crate::regs::spec_aidr_minor_rev(aidr) == 1 ==> r@ == "SMMUv3.1"@,
            crate::regs::spec_aidr_minor_rev(aidr) == 2 ==> r@ == "SMMUv3.2"@,
            crate::regs::spec_aidr_minor_rev(aidr) == 3 ==> r@ == "SMMUv3.3"@,
            crate::regs::spec_aidr_minor_rev(aidr) == 4 ==> r@ == "SMMUv3.4"@,
            crate::regs::spec_aidr_minor_rev(aidr) > 4 ==> r@ == "Unknown"@,
    {
        match crate::regs::aidr_minor_rev(aidr) {
            0 => "SMMUv3.0",
            1 => "SMMUv3.1",
            2 => "SMMUv3.2",
            3 => "SMMUv3.3",
            4 => "SMMUv3.4",
            _ => "Unknown",
        }
    }

    /// Add a command to the Command Queue. With the queue full nothing
    /// changes and the caller must drain first: read `CMDQ_CONS`, hand it to
    /// [`Self::note_cmdq_cons`], and retry. Otherwise the command's 16 bytes
    /// go into the slot at the producer index and the returned write
    /// publishes the advanced `CMDQ_PROD` — the platform layer must make the
    /// slot bytes globally visible before issuing it.
    pub fn add_cmd(&mut self, cmd: &Cmd) -> (r: Option<RegWrite>)
        requires
            old(self).wf(),
            old(self).state == DriverState::Ready,
        ensures
            final(self).wf(),
            final(self).state == DriverState::Ready,
            old(self).cmd_queue.spec_full() ==> r is None && *final(self) == *old(self),
            !old(self).cmd_queue.spec_full() ==> {
                &&& r == Some(RegWrite::W32(Reg::CmdqProd, final(self).cmd_queue.prod))
                &&& final(self).cmd_queue.prod as nat == (old(self).cmd_queue.prod + 1) as nat
                    % old(self).cmd_queue.lim()
                &&& final(self).cmd_queue.slots@ == old(self).cmd_queue.slots@.update(
                    2 * old(self).cmd_queue.prod_idx() as int,
                    cmd.0[0],
                ).update(2 * old(self).cmd_queue.prod_idx() as int + 1, cmd.0[1])
                &&& final(self).cmd_queue.cons == old(self).cmd_queue.cons
                &&& final(self).cmd_queue.qs == old(self).cmd_queue.qs
                &&& final(self).hist@ == old(self).hist@.push(
                    RegWrite::W32(Reg::CmdqProd, final(self).cmd_queue.prod),
                )
                &&& final(self).stream_table == old(self).stream_table
            },
    {
        if self.cmd_queue.full() {
            None
        } else {
            self.cmd_queue.cmd_insert(*cmd);
            let w = RegWrite::W32(Reg::CmdqProd, self.cmd_queue.prod_value());
            proof {
                assert(!is_strtab_write(w));
                assert(!is_cmdq_base_write(w));
                assert(!enables_smmu(w));
                lemma_ordering_extend(self.hist@, seq![w]);
                assert(self.hist@ + seq![w] == self.hist@.push(w));
            }
            self.hist = Ghost(self.hist@.push(w));
            Some(w)
        }
    }

    /// Mirror a value read from `CMDQ_CONS` into the software consumer
    /// index, and surface a non-zero `ERR` field as the literal command
    /// error code; the driver continues either way.
    pub fn note_cmdq_cons(&mut self, cmdq_cons: u32) -> (r: Option<SmmuError>)
        requires
            old(self).wf(),
            old(self).state == DriverState::Ready,
        ensures
            final(self).wf(),
            final(self).hist@ == old(self).hist@,
            final(self).cmd_queue.cons as nat == spec_cons_rd(cmdq_cons) as nat % old(self).cmd_queue.lim(),
            final(self).cmd_queue == (Queue {
                cons: final(self).cmd_queue.cons,
                ..old(self).cmd_queue
            }),
            r == (if spec_cons_err(cmdq_cons) != 0 {
                Some(SmmuError::CommandError(spec_cons_err(cmdq_cons)))
            } else {
                Option::<SmmuError>::None
            }),
            *final(self) == (SMMUv3 { cmd_queue: final(self).cmd_queue, ..*old(self) }),
    {
        let err: u32 = crate::regs::cons_err(cmdq_cons);
        let rd: u32 = crate::regs::cons_rd(cmdq_cons);
        self.cmd_queue.set_cons_value(rd);
        if err != 0 {
            Some(SmmuError::CommandError(err))
        } else {
            None
        }
    }

    /// Judge the Event Queue indices sampled while draining: any non-zero
    /// value signals a translation fault, fatal for the current operation.
    pub fn find_event(&self, eventq_prod: u32, eventq_cons: u32) -> (r: Result<(), SmmuError>)
        ensures
            r is Err <==> (eventq_prod != 0 || eventq_cons != 0),
            r is Err ==> r == Result::<(), SmmuError>::Err(SmmuError::EventQueueActivity),
    {
        if eventq_prod != 0 || eventq_cons != 0 {
            Err(SmmuError::EventQueueActivity)
        } else {
            Ok(())
        }
    }

    /// The Command Queue is full.
    pub fn cmdq_full(&self) -> (r: bool)
        requires
            self.wf(),
            self.state == DriverState::Ready,
        ensures
            r == self.cmd_queue.spec_full(),
    {
        self.cmd_queue.full()
    }

    /// The Command Queue is empty: the hardware has consumed everything.
    pub fn cmdq_empty(&self) -> (r: bool)
        requires
            self.wf(),
            self.state == DriverState::Ready,
        ensures
            r == self.cmd_queue.spec_empty(),
    {
        self.cmd_queue.empty()
    }

    /// Attach a device: write the stage-2 translated STE for `sid`, flush
    /// its 64 bytes, and hand back the invalidation commands the caller must
    /// submit, each followed by a sync: `CFGI_STE(sid, Leaf=1)`, then
    /// `PREFETCH_CONFIG(sid)`.
    pub fn add_device(&mut self, sid: usize, vmid: usize, s2pt_base: memory_addr::PhysAddr) -> (r:
        Vec<Cmd>)
        requires
            old(self).wf(),
            old(self).state == DriverState::Ready,
            sid < old(self).stream_table.entry_count,
            vmid < 0x10000,
        ensures
            final(self).wf(),
            final(self).state == DriverState::Ready,
            final(self).stream_table.is_s2_translated(
                sid as int,
                vmid as u64,
                pa_val(s2pt_base) as u64,
            ),
            forall|s: int, j: int|
                0 <= s < final(self).stream_table.entry_count && s != sid && 0 <= j < 8
                    ==> #[trigger] final(self).stream_table.entry_word(s, j) == old(self).stream_table.entry_word(s, j),
            final(self).stream_table.entry_count == old(self).stream_table.entry_count,
            r@.len() == 2,
            r@[0].0[0] == CMD_CFGI_STE | ((sid as u64) << 32),
            r@[0].0[1] == CMDQ_CFGI_1_LEAF,
            r@[1].0[0] == CMD_PREFETCH_CONFIG | ((sid as u64) << 32),
            r@[1].0[1] == 0u64,
            final(self).hist@ == old(self).hist@,
            final(self).cmd_queue == old(self).cmd_queue,
    {
        proof {
            lemma_sid_fits_u32(self.stream_table.sid_bits, sid);
        }
        self.stream_table.set_s2_translated_ste(sid, vmid, s2pt_base);
        proof {
            assert((sid as nat) * 64 + 64 <= 64 * pow2(self.stream_table.sid_bits as nat))
                by (nonlinear_arith)
                requires
                    (sid as nat) < pow2(self.stream_table.sid_bits as nat),
            ;
        }
        H::flush(
            self.stream_table.base_addr().as_usize() + sid * STRTAB_STE_SIZE,
            STRTAB_STE_SIZE,
        );
        let cfgi = Cmd::cmd_cfgi_ste(sid as u32);
        let prefetch = self.cmd_prefetch(sid);
        let mut cmds: Vec<Cmd> = Vec::new();
        cmds.push(cfgi);
        cmds.push(prefetch);
        proof {
            assert((sid as u32) as u64 == sid as u64);
        }
        cmds
    }

    /// The `PREFETCH_CONFIG` command for `sid`, to be submitted with a sync.
    pub fn cmd_prefetch(&self, sid: usize) -> (c: Cmd)
        requires
            sid <= 0xffff_ffff,
        ensures
            c.0[0] == CMD_PREFETCH_CONFIG | ((sid as u64) << 32),
            c.0[1] == 0u64,
    {
        let c = Cmd::cmd_prefetch_config(sid as u32);
        proof {
            assert((sid as u32) as u64 == sid as u64);
        }
        c
    }

    /// Attach every StreamID to the same stage-2 table under `vm_id`: write
    /// all the STEs, flush the whole table, and hand back the invalidation
    /// command pairs, in StreamID order, for the caller to submit.
    pub fn add_all_devices(&mut self, vm_id: usize, s2pt_base: memory_addr::PhysAddr) -> (r: Vec<
        Cmd,
    >)
        requires
            old(self).wf(),
            old(self).state == DriverState::Ready,
            vm_id < 0x10000,
        ensures
            final(self).wf(),
            final(self).state == DriverState::Ready,
            forall|sid: int|
                0 <= sid < final(self).stream_table.entry_count
                    ==> #[trigger] final(self).stream_table.is_s2_translated(
                    sid,
                    vm_id as u64,
                    pa_val(s2pt_base) as u64,
                ),
            r@.len() == 2 * old(self).stream_table.entry_count,
            forall|sid: int|
                0 <= sid < old(self).stream_table.entry_count ==> (#[trigger] r@[2 * sid]).0[0]
                    == CMD_CFGI_STE | ((sid as u64) << 32) && r@[2 * sid].0[1] == CMDQ_CFGI_1_LEAF
                    && r@[2 * sid + 1].0[0] == CMD_PREFETCH_CONFIG | ((sid as u64) << 32) && r@[2
                    * sid + 1].0[1] == 0u64,
            final(self).hist@ == old(self).hist@,
    {
        let count: usize = self.stream_table.entry_count();
        let mut cmds: Vec<Cmd> = Vec::new();
        let mut sid: usize = 0;
        while sid < count
            invariant
                self.wf(),
                self.state == DriverState::Ready,
                sid <= count,
                count == self.stream_table.entry_count,
                self.stream_table.entry_count == old(self).stream_table.entry_count,
                vm_id < 0x10000,
                self.hist@ == old(self).hist@,
                self.cmd_queue == old(self).cmd_queue,
                cmds@.len() == 2 * sid,
                forall|s: int|
                    0 <= s < sid ==> #[trigger] self.stream_table.is_s2_translated(
                        s,
                        vm_id as u64,
                        pa_val(s2pt_base) as u64,
                    ),
                forall|s: int|
                    0 <= s < sid ==> (#[trigger] cmds@[2 * s]).0[0] == CMD_CFGI_STE | ((s as u64)
                        << 32) && cmds@[2 * s].0[1] == CMDQ_CFGI_1_LEAF && cmds@[2 * s + 1].0[0]
                        == CMD_PREFETCH_CONFIG | ((s as u64) << 32) && cmds@[2 * s + 1].0[1]
                        == 0u64,
            decreases count - sid,
        {
            let ghost pre = self.stream_table;
            proof {
                lemma_sid_fits_u32(self.stream_table.sid_bits, sid);
            }
            self.stream_table.set_s2_translated_ste(sid, vm_id, s2pt_base);
            let cfgi = Cmd::cmd_cfgi_ste(sid as u32);
            cmds.push(cfgi);
            let prefetch = self.cmd_prefetch(sid);
            cmds.push(prefetch);
            proof {
                assert((sid as u32) as u64 == sid as u64);
                assert forall|s: int|
                    0 <= s < sid + 1 implies #[trigger] self.stream_table.is_s2_translated(
                    s,
                    vm_id as u64,
                    pa_val(s2pt_base) as u64,
                ) by {
                    if s < sid {
                        assert(pre.is_s2_translated(s, vm_id as u64, pa_val(s2pt_base) as u64));
                        assert(self.stream_table.entry_word(s, 0) == pre.entry_word(s, 0));
                        assert(self.stream_table.entry_word(s, 1) == pre.entry_word(s, 1));
                        assert(self.stream_table.entry_word(s, 2) == pre.entry_word(s, 2));
                        assert(self.stream_table.entry_word(s, 3) == pre.entry_word(s, 3));
                        assert forall|j: int|
                            4 <= j < 8 implies self.stream_table.entry_word(s, j) == 0u64 by {
                            assert(self.stream_table.entry_word(s, j) == pre.entry_word(s, j));
                        }
                    }
                }
            }
            sid = sid + 1;
        }
        let bytes: usize = STRTAB_STE_SIZE << self.stream_table.sid_bits;
        proof {
            lemma_table_bytes_fit(self.stream_table.sid_bits);
        }
        H::flush(self.stream_table.base_addr().as_usize(), bytes);
        cmds
    }

    /// Allocate a queue region of `2^qs` 16-byte slots and check the
    /// architectural alignment rule: the base must be a multiple of
    /// `max(32, 2^qs * 16)` bytes.
    fn alloc_queue_region(&self, qs: u32) -> (r: Result<usize, SmmuError>)
        requires
            qs <= crate::queue::MAX_CMD_EVENT_QS,
        ensures
            r matches Ok(b) ==> (b as nat) % crate::queue::queue_align(qs as nat) == 0,
            r matches Err(e) ==> e == SmmuError::AllocationFailure,
    {
        proof {
            lemma_queue_bytes_fit(qs);
        }
        let bytes: usize = 16usize << qs;
        let num_pages: usize = (bytes + (PAGE_SIZE_4K - 1)) / PAGE_SIZE_4K;
        let pa = match H::alloc_pages(num_pages) {
            Some(pa) => pa,
            None => {
                return Err(SmmuError::AllocationFailure);
            },
        };
        let base: usize = pa.as_usize();
        let align: usize = if bytes < 32 {
            32
        } else {
            bytes
        };
        if base % align != 0 {
            return Err(SmmuError::AllocationFailure);
        }
        Ok(base)
    }

    /// Allocate a Stream Table region of `2^sid_bits` 64-byte entries and
    /// check the architectural alignment rule `base[sid_bits + 5 : 0] = 0`.
    fn alloc_table_region(&self, sid_bits: u32) -> (r: Result<usize, SmmuError>)
        requires
            sid_bits < 26,
        ensures
            r matches Ok(b) ==> (b as nat) % ((STRTAB_STE_SIZE as nat)
                * vstd::arithmetic::power2::pow2(sid_bits as nat)) == 0 && (b as nat) + (
            STRTAB_STE_SIZE as nat) * vstd::arithmetic::power2::pow2(sid_bits as nat)
                <= usize::MAX,
            r matches Err(e) ==> e == SmmuError::AllocationFailure,
    {
        proof {
            lemma_table_bytes_fit(sid_bits);
        }
        let bytes: usize = STRTAB_STE_SIZE << sid_bits;
        let num_pages: usize = (bytes + (PAGE_SIZE_4K - 1)) / PAGE_SIZE_4K;
        let pa = match H::alloc_pages(num_pages) {
            Some(pa) => pa,
            None => {
                return Err(SmmuError::AllocationFailure);
            },
        };
        let base: usize = pa.as_usize();
        if base % bytes != 0 {
            return Err(SmmuError::AllocationFailure);
        }
        if base > usize::MAX - bytes {
            return Err(SmmuError::AllocationFailure);
        }
        Ok(base)
    }
}

/// Bring-up ordering (law): in every reachable driver state, each write to
/// `STRTAB_BASE` or `STRTAB_BASE_CFG` in the emitted history precedes every
/// `CR0` write that sets `SMMUEN`, and each write to `CMDQ_BASE` precedes
/// every `CR0` write that sets `CMDQEN`.
pub proof fn lemma_bringup_ordering<H: PagingHandler>(d: &SMMUv3<H>)
    requires
        d.wf(),
    ensures
        bringup_ordering_ok(d.hist@),
{
}

/// `16 << qs` bytes of queue fit in `usize` arithmetic, and equal
/// `16 * 2^qs`.
proof fn lemma_queue_bytes_fit(qs: u32)
    requires
        qs <= 19,
    ensures
        (16usize << qs) as nat == 16 * vstd::arithmetic::power2::pow2(qs as nat),
        16 * vstd::arithmetic::power2::pow2(qs as nat) <= 0x800000,
{
    vstd::arithmetic::power2::lemma2_to64();
    if qs < 19 {
        vstd::arithmetic::power2::lemma_pow2_strictly_increases(qs as nat, 19);
    }
    vstd::bits::lemma_usize_shl_is_mul(16usize, qs as usize);
}

/// `64 << sid_bits` bytes of table fit in `usize` arithmetic, and equal
/// `64 * 2^sid_bits`.
proof fn lemma_table_bytes_fit(sid_bits: u32)
    requires
        sid_bits < 26,
    ensures
        (64usize << sid_bits) as nat == 64 * vstd::arithmetic::power2::pow2(sid_bits as nat),
        64 * vstd::arithmetic::power2::pow2(sid_bits as nat) <= 0x80000000,
        64 * vstd::arithmetic::power2::pow2(sid_bits as nat) >= 64,
{
    vstd::arithmetic::power2::lemma2_to64();
    vstd::arithmetic::power2::lemma2_to64_rest();
    vstd::arithmetic::power2::lemma_pow2_pos(sid_bits as nat);
    if sid_bits < 25 {
        vstd::arithmetic::power2::lemma_pow2_strictly_increases(sid_bits as nat, 25);
    }
    vstd::bits::lemma_usize_shl_is_mul(64usize, sid_bits as usize);
}

/// Every index into a table of fewer than `2^26` entries fits in a `u32`.
proof fn lemma_sid_fits_u32(sid_bits: u32, sid: usize)
    requires
        sid_bits < 26,
        (sid as nat) < vstd::arithmetic::power2::pow2(sid_bits as nat),
    ensures
        sid <= 0xffff_ffff,
{
    vstd::arithmetic::power2::lemma2_to64();
    vstd::arithmetic::power2::lemma2_to64_rest();
    vstd::arithmetic::power2::lemma_pow2_strictly_increases(sid_bits as nat, 26);
}

} // verus!
