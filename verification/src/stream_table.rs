//! The linear Stream Table: 64-byte Stream Table Entries (STEs) indexed by
//! StreamID, with bit-exact encoders for the bypass and stage-2 translated
//! configurations.

use vstd::prelude::*;

use vstd::arithmetic::power2::{lemma2_to64, lemma2_to64_rest, lemma_pow2_pos, pow2};

use aarch64_cpu::registers::VTCR_EL2;

use crate::addr::pa_val;

verus! {

/// STE size: 8 doublewords, 64 bytes.
pub const STRTAB_STE_DWORDS: usize = 8;

/// STE size in bytes.
pub const STRTAB_STE_SIZE: usize = 64;

/// V, bit [0]: the entry is valid.
pub const STRTAB_STE_0_V: u64 = 0b1;

/// Config, bits [3:1]: `0b100` = stage 1 bypass, stage 2 bypass.
pub const STRTAB_STE_0_CFG_S1_BYPASS_S2_BYPASS: u64 = 0b100 << 1;

/// Config, bits [3:1]: `0b110` = stage 1 bypass, stage 2 translate.
pub const STRTAB_STE_0_CFG_S1_BYPASS_S2_TRANS: u64 = 0b110 << 1;

/// SHCFG, bits [109:108] (word 1 bits [45:44]): `0b01` = use the incoming
/// shareability attribute.
pub const STRTAB_STE_1_SHCFG_INCOMING: u64 = 0b01 << 44;

/// S2VMID, bits [143:128]: bit offset of the VMID within word 2.
pub const STRTAB_STE_2_S2VMID_OFFSET: u64 = 0;

/// S2T0SZ..S2PS, bits [178:160]: bit offset of the VTCR copy within word 2.
pub const STRTAB_STE_2_S2T0SZ_OFFSET: u64 = 32;

/// Width of the VTCR copy: the low 19 bits of the VTCR_EL2 format.
pub const STRTAB_STE_2_S2VTCR_LEN: u64 = 19;

/// S2AA64, bit [179] (word 2 bit [51]): VMSAv8-64 descriptor format.
pub const STRTAB_STE_2_S2AA64: u64 = 1 << 51;

/// S2PTW, bit [182] (word 2 bit [54]): protected table walk.
pub const STRTAB_STE_2_S2PTW: u64 = 1 << 54;

/// S2S, bit [185] (word 2 bit [57]): stall on stage-2 fault (not asserted).
pub const STRTAB_STE_2_S2S: u64 = 1 << 57;

/// S2R, bit [186] (word 2 bit [58]): record stage-2 faults.
pub const STRTAB_STE_2_S2R: u64 = 1 << 58;

/// S2TTB: the stage-2 table base occupies bits [51:4] of word 3.
pub const STRTAB_STE_3_S2TTB_OFF: u64 = 4;

/// Width of the S2TTB field.
pub const STRTAB_STE_3_S2TTB_LEN: u64 = 48;

/// Bits `[start + length - 1 : start]` of `value`, shifted down to bit 0.
pub open spec fn spec_extract_bits(value: u64, start: u64, length: u64) -> u64 {
    (value >> start) & (((1u64 << length) - 1) as u64)
}

/// Bits `[start + length - 1 : start]` of `value`, shifted down to bit 0.
pub fn extract_bits(value: u64, start: u64, length: u64) -> (r: u64)
    requires
        start < 64,
        length < 64,
    ensures
        r == spec_extract_bits(value, start, length),
{
    proof {
        assert(1u64 << length >= 1) by (bit_vector)
            requires
                length < 64u64,
        ;
    }
    (value >> start) & ((1u64 << length) - 1)
}

/// The stage-2 VTCR word this driver programs, assembled from the
/// architectural VTCR_EL2 field positions: `PS` = 40-bit/1 TiB output,
/// `TG0` = 4 KiB granule, `SH0` = inner shareable, `ORGN0` and `IRGN0` =
/// normal write-back read-allocate write-allocate, `SL0` = 1 (start level 1),
/// `T0SZ` = 16 (48-bit input IPA).
pub open spec fn spec_default_s2_vtcr() -> u64 {
    (0b010u64 << 16) | (0b00u64 << 14) | (0b11u64 << 12) | (0b01u64 << 10) | (0b01u64 << 8) | (
    0b01u64 << 6) | 16u64
}

/// Relies on aarch64_cpu's `VTCR_EL2::PS::PA_40B_1TB`: value `0b010` in the
/// `PS` field at bits [18:16].
#[verifier::external_body]
fn vtcr_ps_40b() -> (r: u64)
    ensures
        r == 0b010u64 << 16,
{
    VTCR_EL2::PS::PA_40B_1TB.value
}

/// Relies on aarch64_cpu's `VTCR_EL2::TG0::Granule4KB`: value `0b00` in the
/// `TG0` field at bits [15:14].
#[verifier::external_body]
fn vtcr_tg0_4kb() -> (r: u64)
    ensures
        r == 0u64,
{
    VTCR_EL2::TG0::Granule4KB.value
}

/// Relies on aarch64_cpu's `VTCR_EL2::SH0::Inner`: value `0b11` in the `SH0`
/// field at bits [13:12].
#[verifier::external_body]
fn vtcr_sh0_inner() -> (r: u64)
    ensures
        r == 0b11u64 << 12,
{
    VTCR_EL2::SH0::Inner.value
}

/// Relies on aarch64_cpu's `VTCR_EL2::ORGN0::NormalWBRAWA`: value `0b01` in
/// the `ORGN0` field at bits [11:10].
#[verifier::external_body]
fn vtcr_orgn0_wbrawa() -> (r: u64)
    ensures
        r == 0b01u64 << 10,
{
    VTCR_EL2::ORGN0::NormalWBRAWA.value
}

/// Relies on aarch64_cpu's `VTCR_EL2::IRGN0::NormalWBRAWA`: value `0b01` in
/// the `IRGN0` field at bits [9:8].
#[verifier::external_body]
fn vtcr_irgn0_wbrawa() -> (r: u64)
    ensures
        r == 0b01u64 << 8,
{
    VTCR_EL2::IRGN0::NormalWBRAWA.value
}

/// Relies on aarch64_cpu's `VTCR_EL2::SL0` field at bits [7:6]: `val(0b01)`
/// places starting level 1 there.
#[verifier::external_body]
fn vtcr_sl0_level1() -> (r: u64)
    ensures
        r == 0b01u64 << 6,
{
    VTCR_EL2::SL0.val(0b01).value
}

/// Relies on aarch64_cpu's `VTCR_EL2::T0SZ` field at bits [5:0]: `val(16)`
/// places the input-region size there.
#[verifier::external_body]
fn vtcr_t0sz_16() -> (r: u64)
    ensures
        r == 16u64,
{
    VTCR_EL2::T0SZ.val(16).value
}

/// The stage-2 VTCR word, built from the architectural field positions.
pub fn default_s2_vtcr() -> (r: u64)
    ensures
        r == spec_default_s2_vtcr(),
{
    let ps: u64 = vtcr_ps_40b();
    let tg0: u64 = vtcr_tg0_4kb();
    let sh0: u64 = vtcr_sh0_inner();
    let orgn0: u64 = vtcr_orgn0_wbrawa();
    let irgn0: u64 = vtcr_irgn0_wbrawa();
    let sl0: u64 = vtcr_sl0_level1();
    let t0sz: u64 = vtcr_t0sz_16();
    let r: u64 = ps | tg0 | sh0 | orgn0 | irgn0 | sl0 | t0sz;
    proof {
        assert(r == spec_default_s2_vtcr()) by (bit_vector)
            requires
                ps == 0b010u64 << 16,
                tg0 == 0u64,
                sh0 == 0b11u64 << 12,
                orgn0 == 0b01u64 << 10,
                irgn0 == 0b01u64 << 8,
                sl0 == 0b01u64 << 6,
                t0sz == 16u64,
                r == ps | tg0 | sh0 | orgn0 | irgn0 | sl0 | t0sz,
        ;
    }
    r
}

/// Word 0 of a bypass STE: `V = 1`, `Config = 0b100`.
pub open spec fn spec_bypass_word0() -> u64 {
    STRTAB_STE_0_V | STRTAB_STE_0_CFG_S1_BYPASS_S2_BYPASS
}

/// Word 0 of a stage-2 translated STE: `V = 1`, `Config = 0b110`.
pub open spec fn spec_s2_word0() -> u64 {
    STRTAB_STE_0_V | STRTAB_STE_0_CFG_S1_BYPASS_S2_TRANS
}

/// Word 2 of a stage-2 translated STE: the VMID in bits [15:0], the VTCR
/// copy in bits [50:32], S2AA64, S2PTW and S2R asserted, S2S clear.
pub open spec fn spec_s2_word2(vmid: u64) -> u64 {
    vmid | (spec_default_s2_vtcr() << STRTAB_STE_2_S2T0SZ_OFFSET) | STRTAB_STE_2_S2AA64
        | STRTAB_STE_2_S2PTW | STRTAB_STE_2_S2R
}

/// Word 3 of a stage-2 translated STE: bits [51:4] of the table base, kept
/// at bit offset 4.
pub open spec fn spec_s2_word3(base: u64) -> u64 {
    spec_extract_bits(base, STRTAB_STE_3_S2TTB_OFF, STRTAB_STE_3_S2TTB_LEN)
        << STRTAB_STE_3_S2TTB_OFF
}

/// The V bit of an STE word 0.
pub open spec fn ste_valid_of(word0: u64) -> bool {
    word0 & 0x1 == 1
}

/// The Config field of an STE word 0: bits [3:1].
pub open spec fn ste_config_of(word0: u64) -> u64 {
    (word0 >> 1) & 0x7
}

/// The S2VMID field of an STE word 2: bits [15:0].
pub open spec fn ste_vmid_of(word2: u64) -> u64 {
    word2 & 0xffff
}

/// One Stream Table Entry: 8 little-endian 64-bit words, 512 bits.
#[derive(Clone, Copy, Debug, PartialEq, Eq)]
pub struct StreamTableEntry(pub [u64; 8]);

impl StreamTableEntry {
    /// The bypass template: valid, stage 1 and stage 2 both bypassed,
    /// incoming shareability kept, every other bit zero.
    pub fn bypass_entry() -> (e: StreamTableEntry)
        ensures
            e.0[0] == spec_bypass_word0(),
            e.0[1] == STRTAB_STE_1_SHCFG_INCOMING,
            forall|j: int| 2 <= j < 8 ==> e.0[j] == 0u64,
    {
        StreamTableEntry(
            [
                STRTAB_STE_0_V | STRTAB_STE_0_CFG_S1_BYPASS_S2_BYPASS,
                STRTAB_STE_1_SHCFG_INCOMING,
                0,
                0,
                0,
                0,
                0,
                0,
            ],
        )
    }

    /// The stage-2 translated template: valid, stage 1 bypassed, stage 2
    /// translating under `vmid` with the driver's fixed VTCR encoding and
    /// the table base from `s2pt_base`.
    pub fn s2_translated_entry(vmid: u64, s2pt_base: memory_addr::PhysAddr) -> (e:
        StreamTableEntry)
        requires
            vmid < 0x10000,
        ensures
            e.0[0] == spec_s2_word0(),
            e.0[1] == STRTAB_STE_1_SHCFG_INCOMING,
            e.0[2] == spec_s2_word2(vmid),
            e.0[3] == spec_s2_word3(pa_val(s2pt_base) as u64),
            forall|j: int| 4 <= j < 8 ==> e.0[j] == 0u64,
    {
        let vtcr: u64 = default_s2_vtcr();
        let vtcr_low: u64 = extract_bits(vtcr, 0, STRTAB_STE_2_S2VTCR_LEN);
        proof {
            assert(spec_extract_bits(spec_default_s2_vtcr(), 0, 19) == spec_default_s2_vtcr())
                by (bit_vector);
        }
        let ttb: u64 = extract_bits(
            s2pt_base.as_usize() as u64,
            STRTAB_STE_3_S2TTB_OFF,
            STRTAB_STE_3_S2TTB_LEN,
        );
        let w2: u64 = (vmid << STRTAB_STE_2_S2VMID_OFFSET) | (vtcr_low
            << STRTAB_STE_2_S2T0SZ_OFFSET) | STRTAB_STE_2_S2AA64 | STRTAB_STE_2_S2PTW
            | STRTAB_STE_2_S2R;
        proof {
            assert(w2 == vtcr_low << 32 | vmid | (1u64 << 51) | (1u64 << 54) | (1u64 << 58)
                ==> w2 == vmid | (vtcr_low << 32) | (1u64 << 51) | (1u64 << 54) | (1u64
                << 58)) by (bit_vector);
            assert((vmid << 0u64) == vmid) by (bit_vector);
        }
        StreamTableEntry(
            [
                STRTAB_STE_0_V | STRTAB_STE_0_CFG_S1_BYPASS_S2_TRANS,
                STRTAB_STE_1_SHCFG_INCOMING,
                w2,
                ttb << STRTAB_STE_3_S2TTB_OFF,
                0,
                0,
                0,
                0,
            ],
        )
    }
}

/// STE round-trip (law): for every `vmid` below `2^16`, the S2VMID field of
/// the encoded word 2 gives `vmid` back; for every 16-byte-aligned table
/// base below `2^52`, the encoded word 3 is the base itself, its bits
/// [51:4] in place.
pub proof fn lemma_ste_round_trip(vmid: u64, base: u64)
    requires
        vmid < 0x10000,
        base % 16 == 0,
        base < 0x10000000000000,
    ensures
        ste_vmid_of(spec_s2_word2(vmid)) == vmid,
        spec_s2_word3(base) == base,
{
    assert(spec_default_s2_vtcr() == 0x23550u64) by (bit_vector);
    assert((vmid | (0x23550u64 << 32) | (1u64 << 51) | (1u64 << 54) | (1u64 << 58)) & 0xffff
        == vmid) by (bit_vector)
        requires
            vmid < 0x10000u64,
    ;
    assert(((base >> 4) & (((1u64 << 48) - 1) as u64)) << 4 == base) by (bit_vector)
        requires
            base % 16 == 0u64 && base < 0x10000000000000u64,
    ;
}

/// Bypass/translate disjointness (law): every bypass STE carries Config
/// `0b100` and every stage-2 STE carries Config `0b110`; both carry `V = 1`.
pub proof fn lemma_bypass_translate_disjoint()
    ensures
        ste_config_of(spec_bypass_word0()) == 0b100u64,
        ste_valid_of(spec_bypass_word0()),
        ste_config_of(spec_s2_word0()) == 0b110u64,
        ste_valid_of(spec_s2_word0()),
{
    assert(ste_config_of(spec_bypass_word0()) == 0b100u64 && ste_valid_of(spec_bypass_word0())
        && ste_config_of(spec_s2_word0()) == 0b110u64 && ste_valid_of(spec_s2_word0()))
        by (bit_vector);
}

/// Decoding word 2 of a stage-2 STE: the VMID sits in bits [15:0], the
/// fixed VTCR copy in bits [50:32], and S2AA64, S2PTW and S2R are set while
/// S2S stays clear.
pub proof fn lemma_s2_word2_fields(vmid: u64)
    requires
        vmid < 0x10000,
    ensures
        ste_vmid_of(spec_s2_word2(vmid)) == vmid,
        spec_extract_bits(spec_s2_word2(vmid), 32, 19) == spec_default_s2_vtcr(),
        spec_s2_word2(vmid) & (1u64 << 51) != 0,
        spec_s2_word2(vmid) & (1u64 << 54) != 0,
        spec_s2_word2(vmid) & (1u64 << 57) == 0,
        spec_s2_word2(vmid) & (1u64 << 58) != 0,
{
    assert(spec_default_s2_vtcr() == 0x23550u64) by (bit_vector);
    let w = vmid | (0x23550u64 << 32) | (1u64 << 51) | (1u64 << 54) | (1u64 << 58);
    assert(w & 0xffff == vmid && ((w >> 32) & (((1u64 << 19) - 1) as u64)) == 0x23550u64 && w & (
    1u64 << 51) != 0 && w & (1u64 << 54) != 0 && w & (1u64 << 57) == 0 && w & (1u64 << 58) != 0)
        by (bit_vector)
        requires
            vmid < 0x10000u64,
            w == vmid | (0x23550u64 << 32) | (1u64 << 51) | (1u64 << 54) | (1u64 << 58),
    ;
}

/// A linear array of `2^sid_bits` STEs in the contiguous physical region at
/// `base`. `entries` holds the table contents as the CPU writes them, eight
/// words per STE; the platform layer flushes them to the shared region.
pub struct LinearStreamTable {
    /// Physical base address of the table region.
    pub base: usize,
    /// StreamID width: the table holds `2^sid_bits` entries.
    pub sid_bits: u32,
    /// Number of entries, `2^sid_bits`.
    pub entry_count: usize,
    /// The table contents, eight 64-bit words per STE.
    pub entries: Vec<u64>,
}

impl LinearStreamTable {
    /// Well-formed after `init`: the size is the configured power of two and
    /// the base obeys the architectural alignment rule
    /// `base[sid_bits + 5 : 0] = 0`, that is `base % (entry_count * 64) == 0`.
    pub open spec fn wf(self) -> bool {
        &&& self.sid_bits < 26
        &&& self.entry_count as nat == pow2(self.sid_bits as nat)
        &&& self.entries@.len() == STRTAB_STE_DWORDS * (self.entry_count as nat)
        &&& (self.base as nat) % ((STRTAB_STE_SIZE as nat) * pow2(self.sid_bits as nat)) == 0
        &&& (self.base as nat) + (STRTAB_STE_SIZE as nat) * pow2(self.sid_bits as nat)
            <= usize::MAX
    }

    /// Word `j` of the STE at index `sid`.
    pub open spec fn entry_word(self, sid: int, j: int) -> u64 {
        self.entries@[8 * sid + j]
    }

    /// The STE at index `sid` is the bypass template.
    pub open spec fn is_bypass(self, sid: int) -> bool {
        &&& self.entry_word(sid, 0) == spec_bypass_word0()
        &&& self.entry_word(sid, 1) == STRTAB_STE_1_SHCFG_INCOMING
        &&& forall|j: int| 2 <= j < 8 ==> self.entry_word(sid, j) == 0u64
    }

    /// The STE at index `sid` is the stage-2 template for `vmid` and `base`.
    pub open spec fn is_s2_translated(self, sid: int, vmid: u64, base: u64) -> bool {
        &&& self.entry_word(sid, 0) == spec_s2_word0()
        &&& self.entry_word(sid, 1) == STRTAB_STE_1_SHCFG_INCOMING
        &&& self.entry_word(sid, 2) == spec_s2_word2(vmid)
        &&& self.entry_word(sid, 3) == spec_s2_word3(base)
        &&& forall|j: int| 4 <= j < 8 ==> self.entry_word(sid, j) == 0u64
    }

    /// A table that no `init` has touched yet.
    pub fn uninit() -> (t: LinearStreamTable)
        ensures
            t.base == 0xdead_beef_usize,
            t.sid_bits == 0u32,
            t.entry_count == 0usize,
            t.entries@.len() == 0,
    {
        LinearStreamTable { base: 0xdead_beef, sid_bits: 0, entry_count: 0, entries: Vec::new() }
    }

    /// Set up a table of `2^sid_bits` entries over the physical region at
    /// `base` and write the bypass template into every entry.
    pub fn init(&mut self, sid_bits: u32, base: usize)
        requires
            sid_bits < 26,
            (base as nat) % ((STRTAB_STE_SIZE as nat) * pow2(sid_bits as nat)) == 0,
            (base as nat) + (STRTAB_STE_SIZE as nat) * pow2(sid_bits as nat) <= usize::MAX,
        ensures
            final(self).wf(),
            final(self).sid_bits == sid_bits,
            final(self).base == base,
            final(self).entry_count as nat == pow2(sid_bits as nat),
            forall|sid: int|
                0 <= sid < final(self).entry_count ==> final(self).is_bypass(sid),
    {
        proof {
            lemma_pow2_usize_fits(sid_bits);
        }
        self.sid_bits = sid_bits;
        self.base = base;
        self.entry_count = 1usize << sid_bits;
        let word_count: usize = STRTAB_STE_DWORDS * self.entry_count;
        let mut entries: Vec<u64> = Vec::new();
        let mut i: usize = 0;
        while i < word_count
            invariant
                i <= word_count,
                entries@.len() == i,
            decreases word_count - i,
        {
            entries.push(0);
            i = i + 1;
        }
        self.entries = entries;
        let mut sid: usize = 0;
        let count: usize = self.entry_count;
        while sid < count
            invariant
                sid <= count,
                count == self.entry_count,
                self.sid_bits == sid_bits,
                self.base == base,
                self.wf(),
                forall|s: int| 0 <= s < sid ==> self.is_bypass(s),
            decreases count - sid,
        {
            let ghost pre = *self;
            self.set_bypass_ste(sid);
            proof {
                assert forall|s: int| 0 <= s < sid + 1 implies self.is_bypass(s) by {
                    if s < sid {
                        assert(pre.is_bypass(s));
                        assert(self.entry_word(s, 0) == pre.entry_word(s, 0));
                        assert(self.entry_word(s, 1) == pre.entry_word(s, 1));
                        assert forall|j: int| 2 <= j < 8 implies self.entry_word(s, j)
                            == 0u64 by {
                            assert(self.entry_word(s, j) == pre.entry_word(s, j));
                        }
                    }
                }
            }
            sid = sid + 1;
        }
    }

    /// Physical base address of the table region.
    pub fn base_addr(&self) -> (r: memory_addr::PhysAddr)
        ensures
            pa_val(r) == self.base,
    {
        memory_addr::PhysAddr::from_usize(self.base)
    }

    /// Number of entries.
    pub fn entry_count(&self) -> (r: usize)
        ensures
            r == self.entry_count,
    {
        self.entry_count
    }

    /// Write the eight words of `e` into the table slot for `sid`.
    fn write_entry(&mut self, sid: usize, e: &StreamTableEntry)
        requires
            old(self).wf(),
            sid < old(self).entry_count,
        ensures
            final(self).wf(),
            *final(self) == (LinearStreamTable { entries: final(self).entries, ..*old(self) }),
            final(self).entries@.len() == old(self).entries@.len(),
            forall|k: int|
                0 <= k < final(self).entries@.len() ==> final(self).entries@[k] == (if 8 * sid
                    <= k < 8 * sid + 8 {
                    e.0[k - 8 * sid]
                } else {
                    old(self).entries@[k]
                }),
    {
        proof {
            lemma_pow2_usize_fits(self.sid_bits);
            assert(8 * (sid as nat) + 8 <= 8 * (self.entry_count as nat));
        }
        let word_base: usize = 8 * sid;
        let mut j: usize = 0;
        while j < 8
            invariant
                j <= 8,
                word_base == 8 * sid,
                self.wf(),
                sid < self.entry_count,
                self.entries@.len() == old(self).entries@.len(),
                *self == (LinearStreamTable { entries: self.entries, ..*old(self) }),
                forall|k: int|
                    0 <= k < self.entries@.len() ==> self.entries@[k] == (if 8 * sid <= k < 8
                        * sid + j {
                        e.0[k - 8 * sid]
                    } else {
                        old(self).entries@[k]
                    }),
            decreases 8 - j,
        {
            proof {
                assert(8 * (sid as nat) + 8 <= self.entries@.len());
            }
            self.entries[word_base + j] = e.0[j];
            j = j + 1;
        }
    }

    /// Write the bypass template at index `sid`.
    pub fn set_bypass_ste(&mut self, sid: usize)
        requires
            old(self).wf(),
            sid < old(self).entry_count,
        ensures
            final(self).wf(),
            *final(self) == (LinearStreamTable { entries: final(self).entries, ..*old(self) }),
            final(self).is_bypass(sid as int),
            forall|s: int, j: int|
                0 <= s < final(self).entry_count && s != sid && 0 <= j < 8
                    ==> #[trigger] final(self).entry_word(s, j) == old(self).entry_word(s, j),
    {
        let e = StreamTableEntry::bypass_entry();
        self.write_entry(sid, &e);
        proof {
            lemma_entry_words_disjoint(*old(self), *self, sid as int);
        }
    }

    /// Write the stage-2 translated template for `vmid` and `s2pt_base` at
    /// index `sid`.
    pub fn set_s2_translated_ste(&mut self, sid: usize, vmid: usize, s2pt_base:
        memory_addr::PhysAddr)
        requires
            old(self).wf(),
            sid < old(self).entry_count,
            vmid < 0x10000,
        ensures
            final(self).wf(),
            *final(self) == (LinearStreamTable { entries: final(self).entries, ..*old(self) }),
            final(self).is_s2_translated(sid as int, vmid as u64, pa_val(s2pt_base) as u64),
            forall|s: int, j: int|
                0 <= s < final(self).entry_count && s != sid && 0 <= j < 8
                    ==> #[trigger] final(self).entry_word(s, j) == old(self).entry_word(s, j),
    {
        let e = StreamTableEntry::s2_translated_entry(vmid as u64, s2pt_base);
        self.write_entry(sid, &e);
        proof {
            lemma_entry_words_disjoint(*old(self), *self, sid as int);
        }
    }
}

/// After one entry is rewritten, every word of every other entry reads as
/// before: entry word ranges do not overlap.
proof fn lemma_entry_words_disjoint(
    pre: LinearStreamTable,
    post: LinearStreamTable,
    sid: int,
)
    requires
        pre.wf(),
        post.wf(),
        pre.entry_count == post.entry_count,
        post.entries@.len() == pre.entries@.len(),
        forall|k: int|
            0 <= k < post.entries@.len() && !(8 * sid <= k < 8 * sid + 8)
                ==> post.entries@[k] == pre.entries@[k],
    ensures
        forall|s: int, j: int|
            0 <= s < post.entry_count && s != sid && 0 <= j < 8
                ==> #[trigger] post.entry_word(s, j) == pre.entry_word(s, j),
{
    assert forall|s: int, j: int|
        0 <= s < post.entry_count && s != sid && 0 <= j < 8 implies #[trigger] post.entry_word(
        s,
        j,
    ) == pre.entry_word(s, j) by {
        assert(8 * s + j < post.entries@.len()) by {
            lemma_pow2_pos(post.sid_bits as nat);
        }
        if s < sid {
            assert(8 * s + j < 8 * sid);
        } else {
            assert(8 * s + j >= 8 * sid + 8);
        }
    }
}

/// Stream Table alignment (law): a well-formed table's physical base is a
/// multiple of its size in bytes, `entry_count * 64`.
pub proof fn lemma_stream_table_alignment(t: LinearStreamTable)
    requires
        t.wf(),
    ensures
        (t.base as nat) % ((t.entry_count as nat) * 64) == 0,
{
    assert((t.entry_count as nat) * 64 == 64 * pow2(t.sid_bits as nat)) by (nonlinear_arith)
        requires
            t.entry_count as nat == pow2(t.sid_bits as nat),
    ;
}

/// `2^sid_bits` entries of 64 bytes fit comfortably in `usize` arithmetic
/// for every width this driver accepts.
proof fn lemma_pow2_usize_fits(sid_bits: u32)
    requires
        sid_bits < 26,
    ensures
        (1usize << sid_bits) as nat == pow2(sid_bits as nat),
        pow2(sid_bits as nat) <= 0x4000000,
{
    lemma2_to64();
    lemma2_to64_rest();
    vstd::bits::lemma_usize_shl_is_mul(1usize, sid_bits as usize);
    if sid_bits < 26 {
        vstd::arithmetic::power2::lemma_pow2_strictly_increases(sid_bits as nat, 26);
    }
}

} // verus!
