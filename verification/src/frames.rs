//! The byte traffic of one chain transaction, as mathematical sequences.
//!
//! A transaction clocks one `(register, data)` pair per module, furthest
//! module first, framed by one chip-select pulse. The spec functions here
//! build the exact byte sequence of each kind of transaction; the driver's
//! contracts state that a successful call appends one of these sequences to
//! the transport history.

use vstd::prelude::*;

verus! {

/// Chip-select traffic of `frames` transactions: a low (`true`) then a high
/// (`false`) level per frame.
pub open spec fn cs_pulses(frames: int) -> Seq<bool>
    decreases frames,
{
    if frames <= 0 {
        Seq::empty()
    } else {
        cs_pulses(frames - 1) + seq![true, false]
    }
}

/// Bytes of one broadcast transaction: `n` identical `(register, data)` pairs.
pub open spec fn broadcast_bytes(register: u8, data: u8, n: int) -> Seq<u8> {
    Seq::new((2 * n) as nat, |i: int| if i % 2 == 0 { register } else { data })
}

/// Bytes of one line transaction: `register` paired with one payload byte per
/// module, `payload[0]` clocked first (so it lands on the furthest module).
pub open spec fn line_bytes(register: u8, payload: Seq<u8>) -> Seq<u8> {
    Seq::new(2 * payload.len(), |i: int| if i % 2 == 0 { register } else { payload[i / 2] })
}

/// Bytes of one addressed transaction for a chain of `n` modules: the real
/// `(register, data)` pair at bus slot `n - 1 - device` and no-op `(0, 0)`
/// pairs everywhere else, so that after the chain shifts everything through,
/// the real pair rests in module `device`'s shift register at the latch.
pub open spec fn device_bytes(n: int, device: int, register: u8, data: u8) -> Seq<u8> {
    Seq::new(
        (2 * n) as nat,
        |i: int|
            if i / 2 == n - 1 - device {
                if i % 2 == 0 {
                    register
                } else {
                    data
                }
            } else {
                0u8
            },
    )
}

/// Bytes of the first `frames` transactions of a clear sweep: one broadcast
/// of `(row register, 0)` per row register `1..=frames`.
pub open spec fn clear_bytes_upto(n: int, frames: int) -> Seq<u8>
    decreases frames,
{
    if frames <= 0 {
        Seq::empty()
    } else {
        clear_bytes_upto(n, frames - 1) + broadcast_bytes(frames as u8, 0, n)
    }
}

/// Bytes of a whole clear sweep: all 8 row registers written to 0 on every
/// module.
pub open spec fn clear_bytes(n: int) -> Seq<u8> {
    clear_bytes_upto(n, 8)
}

/// A broadcast or line transaction holds exactly two bytes per module, and a
/// transaction is framed by exactly one chip-select low/high pair.
pub proof fn lemma_transaction_size(register: u8, data: u8, payload: Seq<u8>, n: int)
    requires
        n >= 0,
    ensures
        broadcast_bytes(register, data, n).len() == 2 * n,
        line_bytes(register, payload).len() == 2 * payload.len(),
        device_bytes(n, 0, register, data).len() == 2 * n,
        cs_pulses(1) == seq![true, false],
{
    assert(cs_pulses(0) =~= Seq::<bool>::empty());
    assert(cs_pulses(1) =~= seq![true, false]);
}

/// In an addressed transaction the `(register, data)` pair is clocked at the
/// bus slot that ends up addressing `device`, and every other slot carries a
/// no-op `(0, 0)` pair.
pub proof fn lemma_device_frame_slots(n: int, device: int, register: u8, data: u8, slot: int)
    requires
        0 <= device < n,
        0 <= slot < n,
    ensures
        device_bytes(n, device, register, data)[2 * slot] == (if slot == n - 1 - device {
            register
        } else {
            0u8
        }),
        device_bytes(n, device, register, data)[2 * slot + 1] == (if slot == n - 1 - device {
            data
        } else {
            0u8
        }),
{
    assert((2 * slot) / 2 == slot);
    assert((2 * slot + 1) / 2 == slot);
    assert((2 * slot) % 2 == 0);
    assert((2 * slot + 1) % 2 == 1);
}

/// Growing an addressed transaction by the pair at bus slot `p`: a no-op pair
/// everywhere except at slot `n - 1 - device`, which carries the real pair.
pub proof fn lemma_device_bytes_take_step(n: int, device: int, register: u8, data: u8, p: int)
    requires
        0 <= p < n,
    ensures
        device_bytes(n, device, register, data).take(2 * p + 2) == device_bytes(
            n,
            device,
            register,
            data,
        ).take(2 * p).push((if p == n - 1 - device { register } else { 0u8 })).push(
            (if p == n - 1 - device { data } else { 0u8 }),
        ),
{
    assert((2 * p) / 2 == p);
    assert((2 * p + 1) / 2 == p);
    assert((2 * p) % 2 == 0);
    assert((2 * p + 1) % 2 == 1);
    assert(device_bytes(n, device, register, data).take(2 * p + 2) =~= device_bytes(
        n,
        device,
        register,
        data,
    ).take(2 * p).push((if p == n - 1 - device { register } else { 0u8 })).push(
        (if p == n - 1 - device { data } else { 0u8 }),
    ));
}

/// A whole clear sweep clocks out eight transactions of two bytes per module
/// each.
pub proof fn lemma_clear_bytes_len(n: int)
    requires
        n >= 0,
    ensures
        clear_bytes(n).len() == 16 * n,
{
    assert(clear_bytes_upto(n, 0).len() == 0);
    assert(clear_bytes_upto(n, 1).len() == 2 * n);
    assert(clear_bytes_upto(n, 2).len() == 4 * n);
    assert(clear_bytes_upto(n, 3).len() == 6 * n);
    assert(clear_bytes_upto(n, 4).len() == 8 * n);
    assert(clear_bytes_upto(n, 5).len() == 10 * n);
    assert(clear_bytes_upto(n, 6).len() == 12 * n);
    assert(clear_bytes_upto(n, 7).len() == 14 * n);
    assert(clear_bytes_upto(n, 8).len() == 16 * n);
}

/// Every data byte a clear sweep clocks out is zero: after `clearAll`, all
/// eight row registers of every module hold an all-zero payload.
pub proof fn lemma_clear_payload_zero(n: int, i: int)
    requires
        n >= 1,
        0 <= i < clear_bytes(n).len(),
        i % 2 == 1,
    ensures
        clear_bytes(n)[i] == 0,
{
    lemma_clear_payload_zero_upto(n, 8, i);
}

proof fn lemma_clear_bytes_upto_even(n: int, frames: int)
    requires
        n >= 0,
    ensures
        clear_bytes_upto(n, frames).len() % 2 == 0,
    decreases frames,
{
    if frames > 0 {
        lemma_clear_bytes_upto_even(n, frames - 1);
        assert(broadcast_bytes(frames as u8, 0, n).len() == 2 * n);
        assert(clear_bytes_upto(n, frames).len() == clear_bytes_upto(n, frames - 1).len() + 2
            * n);
    }
}

proof fn lemma_clear_payload_zero_upto(n: int, frames: int, i: int)
    requires
        n >= 1,
        frames >= 0,
        0 <= i < clear_bytes_upto(n, frames).len(),
        i % 2 == 1,
    ensures
        clear_bytes_upto(n, frames)[i] == 0,
    decreases frames,
{
    let prefix = clear_bytes_upto(n, frames - 1);
    if i < prefix.len() {
        lemma_clear_payload_zero_upto(n, frames - 1, i);
    } else {
        lemma_clear_bytes_upto_even(n, frames - 1);
        let j = i - prefix.len();
        assert(j % 2 == 1);
        assert(broadcast_bytes(frames as u8, 0, n)[j] == 0);
    }
}

} // verus!
