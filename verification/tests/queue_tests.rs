//! Tests for the command encodings and the circular queue index algebra.

use smmuv3::queue::{Cmd, Queue};

#[test]
fn test_queue() {
    let mut queue = Queue::uninit();
    queue.init(7, 0x8000);

    assert_eq!(queue.base_addr().as_usize(), 0x8000);
    assert_eq!(queue.prod_value(), 0);
    assert_eq!(queue.cons_value(), 0);
    assert_eq!(queue.prod_wr(), 0);
    assert_eq!(queue.prod_wr_wrap(), false);
    assert_eq!(queue.cons_rd(), 0);
    assert_eq!(queue.cons_rd_wrap(), false);

    assert_eq!(queue.full(), false);
    assert_eq!(queue.empty(), true);

    for i in 0..64 {
        queue.cmd_insert(Cmd::cmd_cfgi_ste(i));
    }

    assert_eq!(queue.full(), false);
    assert_eq!(queue.empty(), false);
    assert_eq!(queue.prod_wr(), 64);
    assert_eq!(queue.prod_wr_wrap(), false);
    assert_eq!(queue.cons_rd(), 0);
    assert_eq!(queue.cons_rd_wrap(), false);

    for i in 64..128 {
        queue.cmd_insert(Cmd::cmd_cfgi_ste(i));
    }

    assert_eq!(queue.full(), true);
    assert_eq!(queue.empty(), false);
    assert_eq!(queue.prod_wr(), 0);
    assert_eq!(queue.prod_wr_wrap(), true);
    assert_eq!(queue.cons_rd(), 0);
    assert_eq!(queue.cons_rd_wrap(), false);
}

#[test]
fn cmd_encodings() {
    let cfgi = Cmd::cmd_cfgi_ste(0x100);
    assert_eq!(cfgi.0[0], 0x03 | (0x100u64 << 32));
    assert_eq!(cfgi.0[1], 1);

    let sync = Cmd::cmd_sync();
    assert_eq!(sync.0[0], 0x46);
    assert_eq!(sync.0[1], 0);

    let prefetch = Cmd::cmd_prefetch_config(7);
    assert_eq!(prefetch.0[0], 0x01 | (7u64 << 32));
    assert_eq!(prefetch.0[1], 0);
}

/// The packed producer value after `k` inserts is `k mod 2^(qs+1)`: index
/// `k mod 2^qs`, wrap `(k / 2^qs) mod 2`.
#[test]
fn index_algebra_concrete() {
    // qs = 3: 8 slots, 16 packed values.
    let mut queue = Queue::uninit();
    queue.init(3, 0x1000);
    for k in 1..=24u32 {
        // Keep the queue from filling: pretend the hardware consumed
        // everything so far.
        queue.set_cons_value(queue.prod_value());
        queue.cmd_insert(Cmd::cmd_sync());
        assert_eq!(queue.prod_value(), k % 16);
        assert_eq!(queue.prod_wr(), k % 8);
        assert_eq!(queue.prod_wr_wrap(), (k / 8) % 2 == 1);
    }
}

/// `full` is exactly `k - cons_k == 2^qs`; `empty` is exactly `k == cons_k`.
#[test]
fn full_empty_algebra_concrete() {
    let mut queue = Queue::uninit();
    queue.init(2, 0x1000);
    // 4 slots. Insert 4 with the consumer at 0: full, not empty.
    for _ in 0..4 {
        queue.cmd_insert(Cmd::cmd_sync());
    }
    assert!(queue.full());
    assert!(!queue.empty());
    // The hardware consumes two: neither full nor empty.
    queue.set_cons_value(2);
    assert!(!queue.full());
    assert!(!queue.empty());
    // The hardware catches up: empty.
    queue.set_cons_value(4);
    assert!(!queue.full());
    assert!(queue.empty());
}

/// Wrap behavior: with 8 slots, 10 inserts interleaved with consumer
/// advances end at `{wrap = 1, idx = 2}`, and the last two commands land in
/// the slots at byte offsets 0 and 16 of the queue region.
#[test]
fn wrap_behavior() {
    let mut queue = Queue::uninit();
    queue.init(3, 0x1000);
    for i in 0..8 {
        queue.cmd_insert(Cmd::cmd_cfgi_ste(i));
    }
    assert!(queue.full());
    // The hardware consumes two slots; two more commands wrap around.
    queue.set_cons_value(2);
    queue.cmd_insert(Cmd::cmd_cfgi_ste(8));
    queue.cmd_insert(Cmd::cmd_cfgi_ste(9));

    assert_eq!(queue.prod_wr_wrap(), true);
    assert_eq!(queue.prod_wr(), 2);
    assert_eq!(queue.prod_value(), (1 << 3) | 2);
    // Slot 0 (byte offset 0) holds CFGI_STE(8); slot 1 (byte offset 16)
    // holds CFGI_STE(9).
    assert_eq!(queue.slots[0], 0x03 | (8u64 << 32));
    assert_eq!(queue.slots[1], 1);
    assert_eq!(queue.slots[2], 0x03 | (9u64 << 32));
    assert_eq!(queue.slots[3], 1);
}

/// `set_cons_value` clamps to the `qs + 1` significant bits.
#[test]
fn cons_value_clamped() {
    let mut queue = Queue::uninit();
    queue.init(3, 0x1000);
    queue.set_cons_value(0xfff0);
    assert_eq!(queue.cons_value(), 0xfff0 & 0xf);
}

/// The smallest queue: one slot. A single insert fills it and toggles the
/// wrap bit.
#[test]
fn one_slot_queue() {
    let mut queue = Queue::uninit();
    queue.init(0, 0x1000);
    assert!(queue.empty());
    assert!(!queue.full());
    queue.cmd_insert(Cmd::cmd_sync());
    assert!(queue.full());
    assert!(!queue.empty());
    assert_eq!(queue.prod_value(), 1);
    assert_eq!(queue.prod_wr(), 0);
    assert_eq!(queue.prod_wr_wrap(), true);
}

/// A requested log2 size beyond the architectural limit is clamped to 19.
#[test]
fn queue_size_clamped() {
    let mut queue = Queue::uninit();
    queue.init(25, 0x80_0000);
    assert_eq!(queue.qs, 19);
    assert_eq!(queue.queue_size, 1 << 19);
}
