//! End-to-end scenarios for the driver: bring-up against a fake register
//! bank, device attach, queue pressure, command errors, and lost
//! acknowledges.

use memory_addr::{PhysAddr, VirtAddr};
use smmuv3::hal::PagingHandler;
use smmuv3::queue::Cmd;
use smmuv3::regs::{Reg, RegWrite};
use smmuv3::{DriverState, SMMUv3, SmmuError};

/// A platform with an 8-bit StreamID space and 256-slot queues, handing out
/// one fixed, generously aligned region.
struct TestHal;

impl PagingHandler for TestHal {
    fn spec_sid_bits_set() -> u32 {
        8
    }

    fn spec_cmdq_eventq_bits_set() -> u32 {
        8
    }

    fn sid_bits_set() -> u32 {
        8
    }

    fn cmdq_eventq_bits_set() -> u32 {
        8
    }

    fn alloc_pages(_num_pages: usize) -> Option<PhysAddr> {
        Some(PhysAddr::from_usize(0x40000))
    }

    fn dealloc_pages(_paddr: PhysAddr, _num_pages: usize) {}

    fn phys_to_virt(paddr: PhysAddr) -> VirtAddr {
        VirtAddr::from_usize(paddr.as_usize())
    }

    fn flush(_start: usize, _len: usize) {}
}

/// A platform with a 9-bit StreamID space, wide enough for StreamID 0x100.
struct WideHal;

impl PagingHandler for WideHal {
    fn spec_sid_bits_set() -> u32 {
        9
    }

    fn spec_cmdq_eventq_bits_set() -> u32 {
        8
    }

    fn sid_bits_set() -> u32 {
        9
    }

    fn cmdq_eventq_bits_set() -> u32 {
        8
    }

    fn alloc_pages(_num_pages: usize) -> Option<PhysAddr> {
        Some(PhysAddr::from_usize(0x40000))
    }

    fn dealloc_pages(_paddr: PhysAddr, _num_pages: usize) {}

    fn phys_to_virt(paddr: PhysAddr) -> VirtAddr {
        VirtAddr::from_usize(paddr.as_usize())
    }

    fn flush(_start: usize, _len: usize) {}
}

/// A platform whose allocator always fails.
struct NoMemHal;

impl PagingHandler for NoMemHal {
    fn spec_sid_bits_set() -> u32 {
        8
    }

    fn spec_cmdq_eventq_bits_set() -> u32 {
        8
    }

    fn sid_bits_set() -> u32 {
        8
    }

    fn cmdq_eventq_bits_set() -> u32 {
        8
    }

    fn alloc_pages(_num_pages: usize) -> Option<PhysAddr> {
        None
    }

    fn dealloc_pages(_paddr: PhysAddr, _num_pages: usize) {}

    fn phys_to_virt(paddr: PhysAddr) -> VirtAddr {
        VirtAddr::from_usize(paddr.as_usize())
    }

    fn flush(_start: usize, _len: usize) {}
}

/// IDR0 advertising two-level Stream Table support (`ST_LEVEL = 0b01`).
const IDR0_TWO_LEVEL: u32 = 1 << 27;

/// IDR1 advertising SIDSIZE = 8, CMDQS = 8.
const IDR1_SID8_CMDQ8: u32 = 8 | (8 << 21);

/// Drive the bring-up to `Ready`, acknowledging every enable at once.
fn bring_up<H: PagingHandler>(smmu: &mut SMMUv3<H>) {
    smmu.probe(IDR0_TWO_LEVEL, IDR1_SID8_CMDQ8).unwrap();
    smmu.program_cmd_queue().unwrap();
    assert_eq!(smmu.cmdq_ack_step(1 << 3), Ok(true));
    smmu.stream_table_init().unwrap();
    smmu.enable().unwrap();
    assert_eq!(smmu.enable_ack_step(0x9), Ok(true));
    assert_eq!(smmu.state, DriverState::Ready);
}

/// After `init`, the Stream Table holds 256 bypass entries, the Command
/// Queue has 256 slots, `CR0 = 0x9` is the final enable write, and the
/// version string follows `AIDR`.
#[test]
fn bringup_full() {
    let mut smmu: SMMUv3<TestHal> = SMMUv3::new();
    smmu.probe(IDR0_TWO_LEVEL, IDR1_SID8_CMDQ8).unwrap();

    let ws = smmu.program_cmd_queue().unwrap();
    assert_eq!(
        ws,
        vec![
            RegWrite::W64(Reg::CmdqBase, (1 << 62) | 0x40000 | 8),
            RegWrite::W32(Reg::CmdqProd, 0),
            RegWrite::W32(Reg::CmdqCons, 0),
            RegWrite::W32(Reg::Cr0, 1 << 3),
        ]
    );
    // Not acknowledged yet, then acknowledged.
    assert_eq!(smmu.cmdq_ack_step(0), Ok(false));
    assert_eq!(smmu.cmdq_ack_step(1 << 3), Ok(true));

    let ws = smmu.stream_table_init().unwrap();
    assert_eq!(
        ws,
        vec![
            RegWrite::W32(Reg::StrtabBaseCfg, 8),
            RegWrite::W64(Reg::StrtabBase, (1 << 62) | 0x40000),
        ]
    );

    let ws = smmu.enable().unwrap();
    assert_eq!(ws.len(), 6);
    assert_eq!(ws[0], RegWrite::W64(Reg::EventqBase, (1 << 62) | 0x40000 | 8));
    assert_eq!(ws[3], RegWrite::W32(Reg::Cr1, 0xd75));
    assert_eq!(ws[4], RegWrite::W32(Reg::Cr2, 0b0111));
    assert_eq!(ws[5], RegWrite::W32(Reg::Cr0, 0x9));
    assert_eq!(smmu.enable_ack_step(0x9), Ok(true));
    assert_eq!(smmu.state, DriverState::Ready);

    // 256 bypass entries, word 0 = V | Config 0b100 = 0x9.
    assert_eq!(smmu.stream_table.entry_count, 256);
    for sid in 0..256 {
        assert_eq!(smmu.stream_table.entries[8 * sid], 0x9);
    }
    // 256 Command Queue slots.
    assert_eq!(smmu.cmd_queue.queue_size, 256);

    // AIDR.ArchMinorRev = 2 reads as SMMUv3.2.
    assert_eq!(smmu.version(0x2), "SMMUv3.2");
    assert_eq!(smmu.version(0x0), "SMMUv3.0");
    assert_eq!(smmu.version(0xf), "Unknown");
}

/// Attaching StreamID 0x100 writes the stage-2 STE at offset `0x100 * 64`
/// and submits exactly one `CFGI_STE` and one `CMD_SYNC`, advancing
/// `CMDQ_PROD` by two slots.
#[test]
fn add_device_scenario() {
    let mut smmu: SMMUv3<WideHal> = SMMUv3::new();
    bring_up(&mut smmu);

    let cmds = smmu.add_device(0x100, 0x42, PhysAddr::from_usize(0x8000_0000_0000));
    let e0 = smmu.stream_table.entries[8 * 0x100];
    assert_eq!(e0, 0xd);
    assert_eq!(smmu.stream_table.entries[8 * 0x100 + 2] & 0xffff, 0x0042);
    assert_eq!(smmu.stream_table.entries[8 * 0x100 + 3], 0x8000_0000_0000);

    // Submit the invalidation and its sync.
    assert_eq!(cmds[0].0[0], 0x03 | (0x100u64 << 32));
    assert_eq!(cmds[0].0[1], 1);
    let w1 = smmu.add_cmd(&cmds[0]).unwrap();
    assert_eq!(w1, RegWrite::W32(Reg::CmdqProd, 1));
    let w2 = smmu.add_cmd(&Cmd::cmd_sync()).unwrap();
    assert_eq!(w2, RegWrite::W32(Reg::CmdqProd, 2));
    assert_eq!(smmu.cmd_queue.slots[0], 0x03 | (0x100u64 << 32));
    assert_eq!(smmu.cmd_queue.slots[1], 1);
    assert_eq!(smmu.cmd_queue.slots[2], 0x46);
    assert_eq!(smmu.cmd_queue.slots[3], 0);
}

/// Filling the queue to capacity: `full` becomes true after exactly `2^Q`
/// inserts, the next `add_cmd` is refused until the fake advances
/// `CMDQ_CONS`, and then succeeds.
#[test]
fn queue_fills_to_capacity() {
    let mut smmu: SMMUv3<TestHal> = SMMUv3::new();
    bring_up(&mut smmu);

    for i in 0..256 {
        assert!(!smmu.cmdq_full());
        smmu.add_cmd(&Cmd::cmd_cfgi_ste(i)).unwrap();
    }
    assert!(smmu.cmdq_full());
    assert!(smmu.add_cmd(&Cmd::cmd_sync()).is_none());

    // The fake consumer advances one slot; the insert then goes through.
    assert_eq!(smmu.note_cmdq_cons(1), None);
    assert!(!smmu.cmdq_full());
    assert!(smmu.add_cmd(&Cmd::cmd_sync()).is_some());
    assert!(smmu.cmdq_full());
}

/// A non-zero `CMDQ_CONS.ERR` code mid-drain surfaces as `CommandError(5)`
/// and the driver continues: after the fake clears `ERR` and advances past
/// the failing slot, the drain completes.
#[test]
fn command_error_mid_drain() {
    let mut smmu: SMMUv3<TestHal> = SMMUv3::new();
    bring_up(&mut smmu);

    smmu.add_cmd(&Cmd::cmd_cfgi_ste(1)).unwrap();
    smmu.add_cmd(&Cmd::cmd_cfgi_ste(2)).unwrap();
    assert!(!smmu.cmdq_empty());

    // The fake reports ERR = 0x5 with one slot consumed.
    let r = smmu.note_cmdq_cons((0x5 << 24) | 1);
    assert_eq!(r, Some(SmmuError::CommandError(5)));
    assert!(!smmu.cmdq_empty());

    // ERR cleared, both slots consumed: the drain completes.
    assert_eq!(smmu.note_cmdq_cons(2), None);
    assert!(smmu.cmdq_empty());
    // No translation fault was observed.
    assert_eq!(smmu.find_event(0, 0), Ok(()));
}

/// `CR0ACK` never acknowledges `SMMUEN`: the bounded poll elapses with an
/// `AckTimeout` and the driver is left quiescent.
#[test]
fn enable_ack_never_comes() {
    let mut smmu: SMMUv3<TestHal> = SMMUv3::new();
    smmu.probe(IDR0_TWO_LEVEL, IDR1_SID8_CMDQ8).unwrap();
    smmu.program_cmd_queue().unwrap();
    assert_eq!(smmu.cmdq_ack_step(1 << 3), Ok(true));
    smmu.stream_table_init().unwrap();
    smmu.enable().unwrap();

    let mut outcome: Option<SmmuError> = None;
    for _ in 0..=0x1000001u64 {
        // CMDQEN alone never satisfies the enable poll.
        match smmu.enable_ack_step(1 << 3) {
            Ok(false) => continue,
            Ok(true) => panic!("enable must not be acknowledged"),
            Err(e) => {
                outcome = Some(e);
                break;
            }
        }
    }
    assert_eq!(outcome, Some(SmmuError::AckTimeout));
    assert_eq!(smmu.state, DriverState::Failed);
}

/// A platform needing 7 or more StreamID bits on hardware that only offers
/// linear Stream Tables is refused at probe time.
#[test]
fn probe_capability_mismatch() {
    let mut smmu: SMMUv3<TestHal> = SMMUv3::new();
    // ST_LEVEL = 0b00 (linear only) with SIDSIZE = 8.
    let r = smmu.probe(0, IDR1_SID8_CMDQ8);
    assert_eq!(r, Err(SmmuError::CapabilityMismatch));
    assert_eq!(smmu.state, DriverState::Failed);
}

/// A failed page allocation is fatal to bring-up.
#[test]
fn allocation_failure() {
    let mut smmu: SMMUv3<NoMemHal> = SMMUv3::new();
    smmu.probe(IDR0_TWO_LEVEL, IDR1_SID8_CMDQ8).unwrap();
    assert_eq!(smmu.program_cmd_queue().unwrap_err(), SmmuError::AllocationFailure);
    assert_eq!(smmu.state, DriverState::Failed);
}

/// Any non-zero Event Queue index observed while draining is a translation
/// fault.
#[test]
fn event_queue_activity() {
    let smmu: SMMUv3<TestHal> = SMMUv3::new();
    assert_eq!(smmu.find_event(1, 0), Err(SmmuError::EventQueueActivity));
    assert_eq!(smmu.find_event(0, 3), Err(SmmuError::EventQueueActivity));
    assert_eq!(smmu.find_event(0, 0), Ok(()));
}

/// Byte offsets of the registers within the two 64 KiB register pages.
#[test]
fn register_offsets() {
    assert_eq!(Reg::Idr0.offset(), 0x0000);
    assert_eq!(Reg::Idr1.offset(), 0x0004);
    assert_eq!(Reg::Aidr.offset(), 0x001c);
    assert_eq!(Reg::Cr0.offset(), 0x0020);
    assert_eq!(Reg::Cr0Ack.offset(), 0x0024);
    assert_eq!(Reg::Cr1.offset(), 0x0028);
    assert_eq!(Reg::Cr2.offset(), 0x002c);
    assert_eq!(Reg::StrtabBase.offset(), 0x0080);
    assert_eq!(Reg::StrtabBaseCfg.offset(), 0x0088);
    assert_eq!(Reg::CmdqBase.offset(), 0x0090);
    assert_eq!(Reg::CmdqProd.offset(), 0x0098);
    assert_eq!(Reg::CmdqCons.offset(), 0x009c);
    assert_eq!(Reg::EventqBase.offset(), 0x00a0);
    assert_eq!(Reg::EventqProd.offset(), 0x100a8);
    assert_eq!(Reg::EventqCons.offset(), 0x100ac);
}

/// `add_all_devices` rewrites every entry and hands back an invalidation
/// pair per StreamID.
#[test]
fn add_all_devices_rewrites_table() {
    let mut smmu: SMMUv3<TestHal> = SMMUv3::new();
    bring_up(&mut smmu);

    let cmds = smmu.add_all_devices(0x7, PhysAddr::from_usize(0x10000));
    assert_eq!(cmds.len(), 512);
    for sid in 0..256usize {
        assert_eq!(smmu.stream_table.entries[8 * sid], 0xd);
        assert_eq!(smmu.stream_table.entries[8 * sid + 2] & 0xffff, 0x7);
        assert_eq!(cmds[2 * sid].0[0], 0x03 | ((sid as u64) << 32));
        assert_eq!(cmds[2 * sid + 1].0[0], 0x01 | ((sid as u64) << 32));
    }
}
