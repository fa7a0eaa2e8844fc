//! Command encodings and the circular Command/Event Queue shared with the
//! SMMU: a software-held producer index and a hardware-driven consumer index,
//! each a 20-bit `{wrap, idx}` pair.

use vstd::prelude::*;

use vstd::arithmetic::div_mod::{
    lemma_breakdown, lemma_fundamental_div_mod, lemma_mod_equivalence, lemma_small_mod,
};
use vstd::arithmetic::power2::{lemma2_to64, lemma_pow2_adds, lemma_pow2_pos, pow2};
use vstd::bits::{lemma_u32_low_bits_mask_is_mod, lemma_u32_shl_is_mul, low_bits_mask};

use crate::addr::pa_val;

verus! {

/// Largest supported log2 queue size: each queue is `2^n` entries with
/// `0 <= n <= 19`, so the 20-bit PROD/CONS registers hold a 19-bit index
/// plus the wrap bit.
pub const MAX_CMD_EVENT_QS: u32 = 19;

/// Command opcode: invalidate one cached Stream Table Entry.
pub const CMD_CFGI_STE: u64 = 0x03;

/// Command opcode: completion/ordering barrier.
pub const CMD_SYNC: u64 = 0x46;

/// Command opcode: prefetch the configuration for one StreamID.
pub const CMD_PREFETCH_CONFIG: u64 = 0x01;

/// Bit position of the StreamID within command word 0.
pub const CMD_SID_OFFSET: u64 = 32;

/// `Leaf = 1` in word 1 of `CFGI_STE`.
pub const CMDQ_CFGI_1_LEAF: u64 = 1;

/// The architectural alignment of a queue region of `2^qs` 16-byte slots:
/// the larger of 32 bytes and the queue size in bytes.
pub open spec fn queue_align(qs: nat) -> nat {
    if 16 * pow2(qs) < 32 {
        32
    } else {
        16 * pow2(qs)
    }
}

/// One Command Queue entry: two little-endian 64-bit words (16 bytes).
#[derive(Clone, Copy, Debug, PartialEq, Eq)]
pub struct Cmd(pub [u64; 2]);

impl Cmd {
    /// `CFGI_STE(StreamID, Leaf=1)`: invalidate the cached STE for
    /// `stream_id`. Opcode `0x03` in word 0 bits [7:0], the StreamID in bits
    /// [63:32], `Leaf = 1` in word 1 bit [0].
    pub fn cmd_cfgi_ste(stream_id: u32) -> (c: Cmd)
        ensures
            c.0[0] == CMD_CFGI_STE | ((stream_id as u64) << 32),
            c.0[1] == CMDQ_CFGI_1_LEAF,
    {
        Cmd([CMD_CFGI_STE | ((stream_id as u64) << CMD_SID_OFFSET), CMDQ_CFGI_1_LEAF])
    }

    /// `CMD_SYNC` with `CS = 0`: a synchronization barrier for the commands
    /// that precede it in the queue. Opcode `0x46`, all other bits zero.
    pub fn cmd_sync() -> (c: Cmd)
        ensures
            c.0[0] == CMD_SYNC,
            c.0[1] == 0u64,
    {
        Cmd([CMD_SYNC, 0])
    }

    /// `PREFETCH_CONFIG(StreamID)`: opcode `0x01` in word 0 bits [7:0], the
    /// StreamID in bits [63:32], word 1 zero.
    pub fn cmd_prefetch_config(stream_id: u32) -> (c: Cmd)
        ensures
            c.0[0] == CMD_PREFETCH_CONFIG | ((stream_id as u64) << 32),
            c.0[1] == 0u64,
    {
        Cmd([CMD_PREFETCH_CONFIG | ((stream_id as u64) << CMD_SID_OFFSET), 0])
    }
}

/// A circular buffer of `2^qs` 16-byte slots shared with the SMMU.
///
/// `slots` holds the queue contents as the CPU writes them; the platform
/// layer mirrors these words into the physical region at `base` before
/// publishing a new producer index. `prod` is software-owned; `cons` mirrors
/// the hardware's `CMDQ_CONS.RD`.
pub struct Queue {
    /// Physical base address of the queue region.
    pub base: usize,
    /// Number of entries, `2^qs`.
    pub queue_size: u32,
    /// log2 of the number of entries.
    pub qs: u32,
    /// Packed producer `{wrap, idx}`, `qs + 1` significant bits.
    pub prod: u32,
    /// Packed consumer `{wrap, idx}`, `qs + 1` significant bits.
    pub cons: u32,
    /// The queue contents, two 64-bit words per slot.
    pub slots: Vec<u64>,
}

impl Queue {
    /// Number of entries as a mathematical value.
    pub open spec fn size_nat(self) -> nat {
        pow2(self.qs as nat)
    }

    /// One past the largest packed index value: `2^(qs + 1)`.
    pub open spec fn lim(self) -> nat {
        pow2((self.qs + 1) as nat)
    }

    /// Well-formed after `init`: a live geometry, in-range packed indices,
    /// and a base that meets the architectural queue alignment.
    pub open spec fn wf(self) -> bool {
        &&& self.qs <= MAX_CMD_EVENT_QS
        &&& self.queue_size as nat == self.size_nat()
        &&& (self.prod as nat) < self.lim()
        &&& (self.cons as nat) < self.lim()
        &&& self.slots@.len() == 2 * self.size_nat()
        &&& (self.base as nat) % queue_align(self.qs as nat) == 0
    }

    /// Index part of the producer.
    pub open spec fn prod_idx(self) -> nat {
        self.prod as nat % self.size_nat()
    }

    /// Wrap part of the producer.
    pub open spec fn prod_wrap_spec(self) -> bool {
        (self.prod as nat / self.size_nat()) % 2 == 1
    }

    /// Index part of the consumer.
    pub open spec fn cons_idx(self) -> nat {
        self.cons as nat % self.size_nat()
    }

    /// Wrap part of the consumer.
    pub open spec fn cons_wrap_spec(self) -> bool {
        (self.cons as nat / self.size_nat()) % 2 == 1
    }

    /// The queue is full: equal indices, differing wrap bits.
    pub open spec fn spec_full(self) -> bool {
        self.prod_idx() == self.cons_idx() && self.prod_wrap_spec() != self.cons_wrap_spec()
    }

    /// The queue is empty: equal indices, equal wrap bits.
    pub open spec fn spec_empty(self) -> bool {
        self.prod_idx() == self.cons_idx() && self.prod_wrap_spec() == self.cons_wrap_spec()
    }

    /// A queue that no `init` has touched yet.
    pub fn uninit() -> (q: Queue)
        ensures
            q.base == 0xdead_beef_usize,
            q.queue_size == 0u32,
            q.qs == 0u32,
            q.prod == 0u32,
            q.cons == 0u32,
            q.slots@.len() == 0,
    {
        Queue {
            base: 0xdead_beef,
            queue_size: 0,
            qs: 0,
            prod: 0,
            cons: 0,
            slots: Vec::new(),
        }
    }

    /// Set up a queue of `2^min(qs, 19)` entries over the physical region at
    /// `base`, with both indices at zero and every slot word cleared.
    pub fn init(&mut self, qs: u32, base: usize)
        requires
            (base as nat) % queue_align(
                (if qs <= MAX_CMD_EVENT_QS {
                    qs
                } else {
                    MAX_CMD_EVENT_QS
                }) as nat,
            ) == 0,
        ensures
            final(self).qs == if qs <= MAX_CMD_EVENT_QS {
                qs
            } else {
                MAX_CMD_EVENT_QS
            },
            final(self).wf(),
            final(self).base == base,
            final(self).prod == 0u32,
            final(self).cons == 0u32,
            forall|i: int|
                0 <= i < final(self).slots@.len() ==> final(self).slots@[i] == 0u64,
    {
        let qs_eff: u32 = if qs < MAX_CMD_EVENT_QS {
            qs
        } else {
            MAX_CMD_EVENT_QS
        };
        proof {
            lemma_pow2_u32(qs_eff);
            lemma_pow2_u32((qs_eff + 1) as u32);
            lemma_pow2_pos(qs_eff as nat);
            lemma_pow2_pos((qs_eff + 1) as nat);
        }
        self.qs = qs_eff;
        self.queue_size = 1u32 << qs_eff;
        self.prod = 0;
        self.cons = 0;
        self.base = base;
        let word_count: usize = 2 * (self.queue_size as usize);
        let mut slots: Vec<u64> = Vec::new();
        let mut i: usize = 0;
        while i < word_count
            invariant
                i <= word_count,
                slots@.len() == i,
                forall|j: int| 0 <= j < i ==> slots@[j] == 0u64,
            decreases word_count - i,
        {
            slots.push(0);
            i = i + 1;
        }
        self.slots = slots;
    }

    /// Physical base address of the queue region.
    pub fn base_addr(&self) -> (r: memory_addr::PhysAddr)
        ensures
            pa_val(r) == self.base,
    {
        memory_addr::PhysAddr::from_usize(self.base)
    }

    /// Packed producer word, as written to the PROD register.
    pub fn prod_value(&self) -> (r: u32)
        ensures
            r == self.prod,
    {
        self.prod
    }

    /// Packed consumer word, as last mirrored from the CONS register.
    pub fn cons_value(&self) -> (r: u32)
        ensures
            r == self.cons,
    {
        self.cons
    }

    /// Mirror the hardware's `CONS.RD` into software state, clamped to the
    /// `qs + 1` significant bits of a packed index.
    pub fn set_cons_value(&mut self, cons: u32)
        requires
            old(self).wf(),
        ensures
            final(self).wf(),
            final(self).cons as nat == cons as nat % old(self).lim(),
            *final(self) == (Queue { cons: final(self).cons, ..*old(self) }),
    {
        proof {
            lemma_mask_is_mod(cons, (self.qs + 1) as u32);
        }
        self.cons = cons & ((1u32 << (self.qs + 1)) - 1);
    }

    /// Index part of the producer.
    pub fn prod_wr(&self) -> (r: u32)
        requires
            self.wf(),
        ensures
            r as nat == self.prod_idx(),
    {
        proof {
            lemma_mask_is_mod(self.prod, self.qs);
        }
        self.prod & (self.queue_size - 1)
    }

    /// Index part of the consumer.
    pub fn cons_rd(&self) -> (r: u32)
        requires
            self.wf(),
        ensures
            r as nat == self.cons_idx(),
    {
        proof {
            lemma_mask_is_mod(self.cons, self.qs);
        }
        self.cons & (self.queue_size - 1)
    }

    /// Wrap part of the producer.
    pub fn prod_wr_wrap(&self) -> (r: bool)
        requires
            self.wf(),
        ensures
            r == self.prod_wrap_spec(),
    {
        proof {
            lemma_wrap_bit(self.prod, self.qs);
        }
        self.prod & (1u32 << self.qs) != 0
    }

    /// Wrap part of the consumer.
    pub fn cons_rd_wrap(&self) -> (r: bool)
        requires
            self.wf(),
        ensures
            r == self.cons_wrap_spec(),
    {
        proof {
            lemma_wrap_bit(self.cons, self.qs);
        }
        self.cons & (1u32 << self.qs) != 0
    }

    /// `PROD.WR == CONS.RD` and the wrap bits differ: the queue is full.
    pub fn full(&self) -> (r: bool)
        requires
            self.wf(),
        ensures
            r == self.spec_full(),
    {
        self.prod_wr() == self.cons_rd() && self.prod_wr_wrap() != self.cons_rd_wrap()
    }

    /// `PROD.WR == CONS.RD` and the wrap bits agree: the queue is empty.
    pub fn empty(&self) -> (r: bool)
        requires
            self.wf(),
        ensures
            r == self.spec_empty(),
    {
        self.prod_wr() == self.cons_rd() && self.prod_wr_wrap() == self.cons_rd_wrap()
    }

    /// Advance the producer by one slot, toggling the wrap bit when the
    /// index overflows past `2^qs - 1`. The packed word advances by exactly
    /// one, modulo `2^(qs + 1)`.
    fn inc_proc_wq(&mut self)
        requires
            old(self).wf(),
        ensures
            final(self).wf(),
            final(self).prod as nat == (old(self).prod + 1) as nat % old(self).lim(),
            *final(self) == (Queue { prod: final(self).prod, ..*old(self) }),
    {
        proof {
            lemma_pow2_u32(self.qs);
            lemma_pow2_u32((self.qs + 1) as u32);
            lemma_pow2_adds(self.qs as nat, 1);
            lemma2_to64();
            lemma_fundamental_div_mod(self.prod as int, self.size_nat() as int);
        }
        let qs_l: u32 = self.qs;
        let ghost p: nat = self.prod as nat;
        let ghost size: nat = self.size_nat();
        let ghost w: nat = p / size % 2;
        let mut current_proc_wq: u32 = self.prod_wr();
        let current_proc_wrap: bool = self.prod_wr_wrap();
        proof {
            // p < 2^(qs+1) = 2*size, so p / size is the wrap bit itself.
            lemma_pow2_pos(self.qs as nat);
            assert(old(self).lim() == 2 * size);
            assert(p / size < 2) by (nonlinear_arith)
                requires
                    p < 2 * size,
                    size > 0,
            ;
            lemma_small_mod(p / size, 2);
            assert(w == p / size);
            assert(p == size * w + p % size);
        }
        current_proc_wq = current_proc_wq + 1;
        let flip: bool = current_proc_wq == self.queue_size;
        let new_wq: u32 = if flip {
            0
        } else {
            current_proc_wq
        };
        let new_wrap: bool = if flip {
            !current_proc_wrap
        } else {
            current_proc_wrap
        };
        let wrap_bit: u32 = if new_wrap {
            1u32 << qs_l
        } else {
            0
        };
        proof {
            assert((1u32 << qs_l) as nat == size);
            assert(new_wq < self.queue_size);
            assert(wrap_bit == (1u32 << qs_l) || wrap_bit == 0u32);
            assert(new_wq < (1u32 << qs_l) ==> ((1u32 << qs_l) | new_wq) == (1u32 << qs_l)
                + new_wq) by (bit_vector);
            assert(0u32 | new_wq == new_wq) by (bit_vector);
        }
        self.prod = wrap_bit | new_wq;
        proof {
            let q2: nat = old(self).lim();
            assert(q2 == 2 * size);
            vstd::arithmetic::mul::lemma_mul_basics(size as int);
            if flip {
                // index wrapped: old index was size - 1, p + 1 is a multiple of size
                if w == 0 {
                    assert(p == size * w + p % size);
                    assert(size * w == 0) by (nonlinear_arith)
                        requires
                            w == 0nat,
                    ;
                    assert(p + 1 == size);
                    assert(self.prod as nat == size);
                    lemma_small_mod(size, q2);
                } else {
                    assert(size * w == size) by (nonlinear_arith)
                        requires
                            w == 1nat,
                    ;
                    assert(p + 1 == 2 * size);
                    assert(self.prod as nat == 0);
                    assert((p + 1) as nat % q2 == 0) by {
                        vstd::arithmetic::div_mod::lemma_mod_self_0(q2 as int);
                    }
                }
            } else {
                assert(self.prod as nat == p + 1);
                assert(p + 1 < q2);
                lemma_small_mod((p + 1) as nat, q2);
            }
        }
    }

    /// Write the two words of `cmd` into the slot at the producer index and
    /// advance the producer.
    pub fn cmd_insert(&mut self, cmd: Cmd)
        requires
            old(self).wf(),
            !old(self).spec_full(),
        ensures
            final(self).wf(),
            final(self).prod as nat == (old(self).prod + 1) as nat % old(self).lim(),
            final(self).slots@ == old(self).slots@.update(
                2 * old(self).prod_idx() as int,
                cmd.0[0],
            ).update(2 * old(self).prod_idx() as int + 1, cmd.0[1]),
            *final(self) == (Queue {
                prod: final(self).prod,
                slots: final(self).slots,
                ..*old(self)
            }),
    {
        let idx: usize = self.prod_wr() as usize;
        proof {
            lemma_pow2_u32(self.qs);
            assert(self.prod_idx() < self.size_nat()) by {
                lemma_pow2_pos(self.qs as nat);
                vstd::arithmetic::div_mod::lemma_mod_division_less_than_divisor(
                    self.prod as int,
                    self.size_nat() as int,
                );
            }
        }
        self.slots[2 * idx] = cmd.0[0];
        self.slots[2 * idx + 1] = cmd.0[1];
        self.inc_proc_wq();
    }
}

/// The packed `{wrap, idx}` producer value after `k` insertions into a queue
/// of log2 size `qs`: the insertion count reduced to its low `qs + 1` bits.
pub open spec fn packed_index(qs: nat, k: nat) -> nat {
    k % pow2(qs + 1)
}

/// Each insertion advances the packed value by one, modulo `2^(qs + 1)`;
/// this is exactly what [`Queue::cmd_insert`] does to `prod`.
pub proof fn lemma_packed_index_step(qs: nat, k: nat)
    ensures
        packed_index(qs, k + 1) == (packed_index(qs, k) + 1) % pow2(qs + 1),
{
    lemma_pow2_pos(qs + 1);
    lemma2_to64();
    if qs + 1 > 1 {
        vstd::arithmetic::power2::lemma_pow2_strictly_increases(1, qs + 1);
    }
    lemma_small_mod(1, pow2(qs + 1));
    vstd::arithmetic::div_mod::lemma_add_mod_noop(k as int, 1, pow2(qs + 1) as int);
}

/// Adding one to a natural number flips its parity.
proof fn lemma_parity_flip(q: nat)
    ensures
        (q + 1) % 2 != q % 2,
{
    vstd::arithmetic::div_mod::lemma_add_mod_noop(q as int, 1, 2);
    lemma_small_mod(1, 2);
    if q % 2 == 0 {
        lemma_small_mod(0, 2);
    } else {
        assert(q % 2 == 1);
        vstd::arithmetic::div_mod::lemma_mod_self_0(2);
    }
}

/// The packed producer value after `k` insertions, iterated from zero the
/// way [`Queue::cmd_insert`] advances it: plus one, modulo `2^(qs + 1)`.
pub open spec fn prod_after(qs: nat, k: nat) -> nat
    decreases k,
{
    if k == 0 {
        0
    } else {
        (prod_after(qs, (k - 1) as nat) + 1) % pow2(qs + 1)
    }
}

/// The iterated producer is the insertion count reduced to its low
/// `qs + 1` bits: after `k` insertions the packed value is `k % 2^(qs+1)`.
pub proof fn lemma_prod_after_is_packed(qs: nat, k: nat)
    ensures
        prod_after(qs, k) == packed_index(qs, k),
    decreases k,
{
    if k == 0 {
        lemma_pow2_pos(qs + 1);
        lemma_small_mod(0, pow2(qs + 1));
    } else {
        lemma_prod_after_is_packed(qs, (k - 1) as nat);
        lemma_packed_index_step(qs, (k - 1) as nat);
    }
}

/// Queue index algebra (law): for every log2 size `qs` and insertion count
/// `k`, the packed producer value `k % 2^(qs + 1)` decomposes into the index
/// `k % 2^qs` and the wrap bit `(k / 2^qs) % 2`.
pub proof fn lemma_queue_index_algebra(qs: nat, k: nat)
    ensures
        packed_index(qs, k) % pow2(qs) == k % pow2(qs),
        (packed_index(qs, k) / pow2(qs)) % 2 == (k / pow2(qs)) % 2,
{
    let p = pow2(qs);
    let w = (k / p) % 2;
    let i = k % p;
    lemma_pow2_adds(qs, 1);
    lemma2_to64();
    lemma_pow2_pos(qs);
    assert(pow2(qs + 1) == p * 2);
    lemma_breakdown(k as int, p as int, 2);
    assert(packed_index(qs, k) == p * w + i);
    assert((p * w + i) % p == i) by (nonlinear_arith)
        requires
            0 < p,
            0 <= i < p,
            0 <= w < 2,
    ;
    assert((p * w + i) / p == w) by (nonlinear_arith)
        requires
            0 < p,
            0 <= i < p,
            0 <= w < 2,
    ;
    lemma_small_mod(w, 2);
}

/// Fullness and emptiness (law): when a queue of log2 size `qs` has taken
/// `k` insertions of which the hardware has consumed `ck`, with
/// `ck <= k <= ck + 2^qs`, the architectural full test on the packed indices
/// (equal index parts, differing wrap parts) holds exactly when
/// `k - ck == 2^qs`, and the empty test (equal index parts, equal wrap
/// parts) exactly when `k == ck`.
pub proof fn lemma_queue_full_empty(qs: nat, k: nat, ck: nat)
    requires
        ck <= k <= ck + pow2(qs),
    ensures
        (packed_index(qs, k) % pow2(qs) == packed_index(qs, ck) % pow2(qs) && (packed_index(
            qs,
            k,
        ) / pow2(qs)) % 2 != (packed_index(qs, ck) / pow2(qs)) % 2) <==> k == ck + pow2(qs),
        (packed_index(qs, k) % pow2(qs) == packed_index(qs, ck) % pow2(qs) && (packed_index(
            qs,
            k,
        ) / pow2(qs)) % 2 == (packed_index(qs, ck) / pow2(qs)) % 2) <==> k == ck,
{
    let p = pow2(qs);
    lemma_pow2_pos(qs);
    lemma_queue_index_algebra(qs, k);
    lemma_queue_index_algebra(qs, ck);
    if k % p == ck % p {
        lemma_mod_equivalence(k as int, ck as int, p as int);
        assert((k - ck) % (p as int) == 0);
        if k - ck < p {
            lemma_small_mod((k - ck) as nat, p);
            assert(k == ck);
        } else {
            assert(k == ck + p);
            assert(k / p == ck / p + 1) by (nonlinear_arith)
                requires
                    0 < p,
                    k == ck + p,
            ;
            lemma_parity_flip(ck / p);
        }
    } else {
        if k == ck {
            assert(false);
        }
        if k == ck + p {
            lemma_mod_equivalence(k as int, ck as int, p as int);
            vstd::arithmetic::div_mod::lemma_mod_self_0(p as int);
            vstd::arithmetic::div_mod::lemma_mod_add_multiples_vanish(ck as int, p as int);
            assert(false);
        }
    }
}

/// Queue alignment (law): a well-formed queue's physical base is a multiple
/// of `max(32, 2^qs * 16)` bytes.
pub proof fn lemma_queue_alignment(q: Queue)
    requires
        q.wf(),
    ensures
        (q.base as nat) % (if 16 * pow2(q.qs as nat) < 32 {
            32nat
        } else {
            16 * pow2(q.qs as nat)
        }) == 0,
{
}

/// Fullness and emptiness at the queue level (law): a well-formed queue
/// whose packed indices record `k` insertions and `ck` consumptions, with
/// at most `2^qs` outstanding, is full exactly when `k - ck == 2^qs` and
/// empty exactly when `k == ck`.
pub proof fn lemma_queue_state_full_empty(q: Queue, k: nat, ck: nat)
    requires
        q.wf(),
        q.prod as nat == packed_index(q.qs as nat, k),
        q.cons as nat == packed_index(q.qs as nat, ck),
        ck <= k <= ck + pow2(q.qs as nat),
    ensures
        q.spec_full() <==> k == ck + pow2(q.qs as nat),
        q.spec_empty() <==> k == ck,
{
    let qs = q.qs as nat;
    let p = pow2(qs);
    lemma_pow2_pos(qs);
    lemma_queue_full_empty(qs, k, ck);
    assert(q.prod_idx() == packed_index(qs, k) % p);
    assert(q.cons_idx() == packed_index(qs, ck) % p);
    let wp = (packed_index(qs, k) / p) % 2;
    let wc = (packed_index(qs, ck) / p) % 2;
    assert(0 <= wp < 2 && 0 <= wc < 2) by {
        vstd::arithmetic::div_mod::lemma_mod_division_less_than_divisor(
            (packed_index(qs, k) / p) as int,
            2,
        );
        vstd::arithmetic::div_mod::lemma_mod_division_less_than_divisor(
            (packed_index(qs, ck) / p) as int,
            2,
        );
    }
    assert((q.prod_wrap_spec() != q.cons_wrap_spec()) <==> wp != wc);
}

/// `(1 << qs) - 1` masks a packed word down to its low `qs` bits, which is
/// reduction modulo `2^qs`.
proof fn lemma_mask_is_mod(x: u32, qs: u32)
    requires
        qs <= 20,
    ensures
        (x & (((1u32 << qs) - 1) as u32)) as nat == x as nat % pow2(qs as nat),
        ((x & (((1u32 << qs) - 1) as u32)) as nat) < pow2(qs as nat),
        (1u32 << qs) as nat == pow2(qs as nat),
        1u32 << qs >= 1u32,
{
    lemma_pow2_u32(qs);
    lemma_pow2_pos(qs as nat);
    assert(((1u32 << qs) - 1) as u32 == low_bits_mask(qs as nat) as u32);
    lemma_u32_low_bits_mask_is_mod(x, qs as nat);
    assert(pow2(qs as nat) as u32 as nat == pow2(qs as nat));
    vstd::arithmetic::div_mod::lemma_mod_division_less_than_divisor(
        x as int,
        pow2(qs as nat) as int,
    );
}

/// Testing bit `qs` of a packed word reads its wrap part: the parity of the
/// word divided by `2^qs`.
proof fn lemma_wrap_bit(x: u32, qs: u32)
    requires
        qs <= 19,
    ensures
        (x & (1u32 << qs) != 0) <==> ((x as nat / pow2(qs as nat)) % 2 == 1),
{
    lemma_pow2_u32(qs);
    lemma_pow2_pos(qs as nat);
    assert((x & (1u32 << qs) != 0) <==> ((x / (1u32 << qs)) % 2 == 1)) by (bit_vector)
        requires
            qs <= 19u32,
    ;
    assert(x / (1u32 << qs) == x as nat / pow2(qs as nat)) by {
        vstd::bits::lemma_u32_shr_is_div(x, qs);
        assert(x >> qs == x / (1u32 << qs)) by (bit_vector)
            requires
                qs <= 19u32,
        ;
    }
}

/// `1 << qs` is `2^qs` and fits in a `u32` for every `qs` this driver uses.
proof fn lemma_pow2_u32(qs: u32)
    requires
        qs <= 20,
    ensures
        (1u32 << qs) as nat == pow2(qs as nat),
        pow2(qs as nat) <= 0x100000,
{
    lemma2_to64();
    lemma_u32_shl_is_mul(1u32, qs);
    assert(pow2(qs as nat) <= pow2(20)) by {
        if qs < 20 {
            vstd::arithmetic::power2::lemma_pow2_strictly_increases(qs as nat, 20);
        }
    }
}

} // verus!
