//! The SMMU register window: byte offsets of the registers this driver
//! programs or reads, and bit-exact encoders and decoders for their fields.
//! The registers occupy two consecutive 64 KiB pages.

use vstd::prelude::*;

verus! {

/// `CR0.SMMUEN`, bit [0]: enable the SMMU.
pub const CR0_SMMUEN: u32 = 1;

/// `CR0.EVENTQEN`, bit [2]: enable Event Queue writes.
pub const CR0_EVENTQEN: u32 = 1 << 2;

/// `CR0.CMDQEN`, bit [3]: enable Command Queue processing.
pub const CR0_CMDQEN: u32 = 1 << 3;

/// The registers the driver touches, identified by name.
#[derive(Clone, Copy, Debug, PartialEq, Eq, Structural)]
pub enum Reg {
    /// Feature identification register 0.
    Idr0,
    /// Feature identification register 1.
    Idr1,
    /// Architecture minor revision.
    Aidr,
    /// Global enables.
    Cr0,
    /// Acknowledge of CR0.
    Cr0Ack,
    /// Table and queue memory attributes.
    Cr1,
    /// Platform configuration.
    Cr2,
    /// Stream Table base address.
    StrtabBase,
    /// Stream Table format and size.
    StrtabBaseCfg,
    /// Command Queue base address and size.
    CmdqBase,
    /// Command Queue producer index.
    CmdqProd,
    /// Command Queue consumer index.
    CmdqCons,
    /// Event Queue base address and size.
    EventqBase,
    /// Event Queue producer index.
    EventqProd,
    /// Event Queue consumer index.
    EventqCons,
}

impl Reg {
    /// Byte offset of the register within the 128 KiB window.
    pub open spec fn spec_offset(self) -> usize {
        match self {
            Reg::Idr0 => 0x0000,
            Reg::Idr1 => 0x0004,
            Reg::Aidr => 0x001c,
            Reg::Cr0 => 0x0020,
            Reg::Cr0Ack => 0x0024,
            Reg::Cr1 => 0x0028,
            Reg::Cr2 => 0x002c,
            Reg::StrtabBase => 0x0080,
            Reg::StrtabBaseCfg => 0x0088,
            Reg::CmdqBase => 0x0090,
            Reg::CmdqProd => 0x0098,
            Reg::CmdqCons => 0x009c,
            Reg::EventqBase => 0x00a0,
            Reg::EventqProd => 0x100a8,
            Reg::EventqCons => 0x100ac,
        }
    }

    /// Byte offset of the register within the 128 KiB window.
    pub fn offset(self) -> (r: usize)
        ensures
            r == self.spec_offset(),
    {
        match self {
            Reg::Idr0 => 0x0000,
            Reg::Idr1 => 0x0004,
            Reg::Aidr => 0x001c,
            Reg::Cr0 => 0x0020,
            Reg::Cr0Ack => 0x0024,
            Reg::Cr1 => 0x0028,
            Reg::Cr2 => 0x002c,
            Reg::StrtabBase => 0x0080,
            Reg::StrtabBaseCfg => 0x0088,
            Reg::CmdqBase => 0x0090,
            Reg::CmdqProd => 0x0098,
            Reg::CmdqCons => 0x009c,
            Reg::EventqBase => 0x00a0,
            Reg::EventqProd => 0x100a8,
            Reg::EventqCons => 0x100ac,
        }
    }
}

/// One register write the driver hands to the platform layer, to be issued
/// as a single volatile store of the given width, in list order.
#[derive(Clone, Copy, Debug, PartialEq, Eq, Structural)]
pub enum RegWrite {
    /// A 32-bit store.
    W32(Reg, u32),
    /// A 64-bit store.
    W64(Reg, u64),
}

/// `CMDQ_BASE`: `RA = ReadAllocate` (bit 62), `ADDR` = queue base bits
/// [55:5], `LOG2SIZE` = `qs` in bits [4:0].
pub open spec fn spec_cmdq_base_value(base: u64, qs: u32) -> u64 {
    (1u64 << 62) | ((((base >> 5) & (((1u64 << 51) - 1) as u64)) as u64) << 5) | ((qs as u64)
        & 0x1f)
}

/// `CMDQ_BASE` register value for a queue at `base` with log2 size `qs`.
pub fn cmdq_base_value(base: u64, qs: u32) -> (r: u64)
    ensures
        r == spec_cmdq_base_value(base, qs),
{
    proof {
        assert(1u64 << 51 >= 1) by (bit_vector);
    }
    (1u64 << 62) | (((base >> 5) & ((1u64 << 51) - 1)) << 5) | ((qs as u64) & 0x1f)
}

/// `STRTAB_BASE`: `RA = Enable` (bit 62), `ADDR` = table base bits [55:6].
pub open spec fn spec_strtab_base_value(base: u64) -> u64 {
    (1u64 << 62) | ((((base >> 6) & (((1u64 << 50) - 1) as u64)) as u64) << 6)
}

/// `STRTAB_BASE` register value for a table at `base`.
pub fn strtab_base_value(base: u64) -> (r: u64)
    ensures
        r == spec_strtab_base_value(base),
{
    proof {
        assert(1u64 << 50 >= 1) by (bit_vector);
    }
    (1u64 << 62) | (((base >> 6) & ((1u64 << 50) - 1)) << 6)
}

/// `STRTAB_BASE_CFG`: `FMT = Linear` (`0b00` in bits [17:16]), `LOG2SIZE` =
/// `sid_bits` in bits [5:0].
pub open spec fn spec_strtab_base_cfg_value(sid_bits: u32) -> u32 {
    sid_bits & 0x3f
}

/// `STRTAB_BASE_CFG` register value for a linear table of `2^sid_bits`
/// entries.
pub fn strtab_base_cfg_value(sid_bits: u32) -> (r: u32)
    ensures
        r == spec_strtab_base_cfg_value(sid_bits),
{
    sid_bits & 0x3f
}

/// `CR1`: inner-shareable, write-back cacheable attributes for both table
/// and queue accesses. `TABLE_SH = 0b11`, `TABLE_OC = TABLE_IC = 0b01`,
/// `QUEUE_SH = 0b11`, `QUEUE_OC = QUEUE_IC = 0b01`.
pub open spec fn spec_cr1_value() -> u32 {
    (0b11u32 << 10) | (0b01u32 << 8) | (0b01u32 << 6) | (0b11u32 << 4) | (0b01u32 << 2) | 0b01u32
}

/// `CR1` register value: inner-shareable, write-back cacheable everywhere.
pub fn cr1_value() -> (r: u32)
    ensures
        r == spec_cr1_value(),
{
    (0b11u32 << 10) | (0b01u32 << 8) | (0b01u32 << 6) | (0b11u32 << 4) | (0b01u32 << 2) | 0b01u32
}

/// `CR2.VALID`: the platform default, `0b0111`.
pub const CR2_VALID_DEFAULT: u32 = 0b0111;

/// `IDR1.SIDSIZE`, bits [5:0]: the hardware's StreamID width.
pub open spec fn spec_idr1_sidsize(idr1: u32) -> u32 {
    idr1 & 0x3f
}

/// The `SIDSIZE` field of an `IDR1` value.
pub fn idr1_sidsize(idr1: u32) -> (r: u32)
    ensures
        r == spec_idr1_sidsize(idr1),
{
    idr1 & 0x3f
}

/// `IDR1.CMDQS`, bits [25:21]: the hardware's maximum Command Queue log2
/// size.
pub open spec fn spec_idr1_cmdqs(idr1: u32) -> u32 {
    (idr1 >> 21) & 0x1f
}

/// The `CMDQS` field of an `IDR1` value.
pub fn idr1_cmdqs(idr1: u32) -> (r: u32)
    ensures
        r == spec_idr1_cmdqs(idr1),
{
    (idr1 >> 21) & 0x1f
}

/// `IDR0.ST_LEVEL`, bits [28:27]: `0b00` = only linear Stream Tables.
pub open spec fn spec_idr0_st_level(idr0: u32) -> u32 {
    (idr0 >> 27) & 0x3
}

/// The `ST_LEVEL` field of an `IDR0` value.
pub fn idr0_st_level(idr0: u32) -> (r: u32)
    ensures
        r == spec_idr0_st_level(idr0),
{
    (idr0 >> 27) & 0x3
}

/// `CMDQ_CONS.ERR`, bits [30:24]: the hardware's command error code.
pub open spec fn spec_cons_err(cmdq_cons: u32) -> u32 {
    (cmdq_cons >> 24) & 0x7f
}

/// The `ERR` field of a `CMDQ_CONS` value.
pub fn cons_err(cmdq_cons: u32) -> (r: u32)
    ensures
        r == spec_cons_err(cmdq_cons),
{
    (cmdq_cons >> 24) & 0x7f
}

/// `CMDQ_CONS.RD`, bits [19:0]: the packed consumer index.
pub open spec fn spec_cons_rd(cmdq_cons: u32) -> u32 {
    cmdq_cons & 0xfffff
}

/// The `RD` field of a `CMDQ_CONS` value.
pub fn cons_rd(cmdq_cons: u32) -> (r: u32)
    ensures
        r == spec_cons_rd(cmdq_cons),
{
    cmdq_cons & 0xfffff
}

/// `AIDR.ArchMinorRev`, bits [3:0]: the architecture minor revision.
pub open spec fn spec_aidr_minor_rev(aidr: u32) -> u32 {
    aidr & 0xf
}

/// The `ArchMinorRev` field of an `AIDR` value.
pub fn aidr_minor_rev(aidr: u32) -> (r: u32)
    ensures
        r == spec_aidr_minor_rev(aidr),
{
    aidr & 0xf
}

} // verus!
