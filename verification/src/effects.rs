//! Integer bookkeeping of the effects and the noise source: delay-line
//! positions, the sample-and-hold counter of the bitcrusher, phaser stage
//! counts, stepped settings and the row schedule of pink noise.
use vstd::prelude::*;

verus! {

/// The slot after `pos` in a circular buffer of `len` slots.
pub fn advance(pos: usize, len: usize) -> (r: usize)
    requires
        len > 0,
        pos < usize::MAX,
    ensures
        r == (pos + 1) % (len as int),
        r < len,
{
    (pos + 1) % len
}

/// The slot `delay` places behind `write_pos` in a circular buffer of `len`
/// slots.
pub fn delay_read_pos(write_pos: usize, delay: usize, len: usize) -> (r: usize)
    requires
        write_pos < len,
        delay <= len + write_pos,
    ensures
        r == (if write_pos >= delay { write_pos - delay } else { len - (delay - write_pos) }),
        r < len,
        (r + delay) % (len as int) == write_pos,
{
    if write_pos >= delay {
        let r = write_pos - delay;
        assert((r + delay) % (len as int) == write_pos) by {
            vstd::arithmetic::div_mod::lemma_small_mod(write_pos as nat, len as nat);
        }
        r
    } else {
        let r = len - (delay - write_pos);
        assert((r + delay) % (len as int) == write_pos) by {
            assert(r + delay == len + write_pos);
            vstd::arithmetic::div_mod::lemma_mod_add_multiples_vanish(write_pos as int, len as int);
            vstd::arithmetic::div_mod::lemma_small_mod(write_pos as nat, len as nat);
        }
        r
    }
}

/// A delay length in samples, held below the buffer length.
pub fn clamp_delay(samples: usize, len: usize) -> (r: usize)
    requires
        len > 0,
    ensures
        r == (if samples < len - 1 { samples } else { (len - 1) as usize }),
{
    if samples < len - 1 {
        samples
    } else {
        len - 1
    }
}

/// One step of the sample-and-hold counter: the counter after the step, and
/// whether a new sample is taken (when the counter reaches the divider, it
/// restarts from zero).
pub fn hold_step(counter: u8, divider: u8) -> (r: (u8, bool))
    requires
        counter < u8::MAX,
    ensures
        r.1 == (counter + 1 >= divider),
        r.0 == (if r.1 { 0 } else { counter + 1 }),
{
    let next = counter + 1;
    if next >= divider {
        (0, true)
    } else {
        (next, false)
    }
}

/// `value` held within `lo..=hi`.
pub open spec fn clamped(value: int, lo: int, hi: int) -> int {
    if value < lo {
        lo
    } else if value > hi {
        hi
    } else {
        value
    }
}

/// A setting held within `lo..=hi`.
pub fn clamp_setting(value: u8, lo: u8, hi: u8) -> (r: u8)
    requires
        lo <= hi,
    ensures
        r == clamped(value as int, lo as int, hi as int),
{
    if value < lo {
        lo
    } else if value > hi {
        hi
    } else {
        value
    }
}

/// A setting moved by `delta` and held within `lo..=hi`.
pub fn step_setting(value: u8, delta: i8, lo: u8, hi: u8) -> (r: u8)
    requires
        lo <= hi,
    ensures
        r == clamped(value + delta, lo as int, hi as int),
{
    let moved: i16 = value as i16 + delta as i16;
    if moved < lo as i16 {
        lo
    } else if moved > hi as i16 {
        hi
    } else {
        moved as u8
    }
}

/// The stage count a phaser takes for a requested count: only 4, 6, 8 or 12
/// stages are built.
pub open spec fn stage_count(requested: int) -> int {
    if requested <= 5 {
        4
    } else if requested <= 7 {
        6
    } else if requested <= 10 {
        8
    } else {
        12
    }
}

/// Snap a requested phaser stage count to one that is built.
pub fn phaser_stages(requested: u8) -> (r: u8)
    ensures
        r == stage_count(requested as int),
{
    if requested <= 5 {
        4
    } else if requested <= 7 {
        6
    } else if requested <= 10 {
        8
    } else {
        12
    }
}

/// Number of zero bits at the low end of `x`, counting at most `limit`.
pub open spec fn low_zero_bits(x: nat, limit: nat) -> nat
    decreases limit,
{
    if limit == 0 || x % 2 == 1 {
        0
    } else {
        1 + low_zero_bits(x / 2, (limit - 1) as nat)
    }
}

/// Number of rows of the pink-noise generator.
pub const PINK_ROWS: usize = 16;

/// The pink-noise row refreshed at step `counter`: the number of trailing
/// zero bits of the counter, when it is below the number of rows.
pub fn pink_row(counter: usize) -> (r: Option<usize>)
    ensures
        r == (if low_zero_bits(counter as nat, PINK_ROWS as nat) < PINK_ROWS {
            Some(low_zero_bits(counter as nat, PINK_ROWS as nat) as usize)
        } else {
            None
        }),
{
    let mut k: usize = 0;
    let mut x: usize = counter;
    while k < PINK_ROWS && x % 2 == 0
        invariant
            k <= PINK_ROWS,
            low_zero_bits(counter as nat, PINK_ROWS as nat) == k + low_zero_bits(
                x as nat,
                (PINK_ROWS - k) as nat,
            ),
        decreases PINK_ROWS - k,
    {
        x = x / 2;
        k = k + 1;
    }
    if k < PINK_ROWS {
        Some(k)
    } else {
        None
    }
}

/// Law: stepping through a delay line never leaves it, and reading `delay`
/// slots behind the write position and then stepping both keeps the same
/// distance.
pub proof fn law_delay_distance_kept(write_pos: int, delay: int, len: int)
    requires
        0 <= write_pos < len,
        0 <= delay < len,
    ensures
        ({
            let read = (write_pos - delay) % len;
            let next_write = (write_pos + 1) % len;
            let next_read = (read + 1) % len;
            &&& 0 <= next_write < len
            &&& (next_read + delay) % len == next_write
        }),
{
    let read = (write_pos - delay) % len;
    let next_read = (read + 1) % len;
    vstd::arithmetic::div_mod::lemma_add_mod_noop_right(delay, read + 1, len);
    vstd::arithmetic::div_mod::lemma_add_mod_noop_right(delay + 1, write_pos - delay, len);
    assert(delay + next_read == next_read + delay);
    assert(delay + 1 + read == delay + (read + 1));
}

/// Law: a snapped stage count is one of those the phaser builds, and those
/// counts are kept as they are.
pub proof fn law_stage_count_snaps(requested: int)
    ensures
        stage_count(requested) == 4 || stage_count(requested) == 6 || stage_count(requested)
            == 8 || stage_count(requested) == 12,
        stage_count(stage_count(requested)) == stage_count(requested),
{
}

/// Law: a stepped setting stays within its range, and a step of zero from a
/// value in range keeps it.
pub proof fn law_step_in_range(value: int, delta: int, lo: int, hi: int)
    requires
        lo <= hi,
    ensures
        lo <= clamped(value + delta, lo, hi) <= hi,
        lo <= value <= hi ==> clamped(value + 0, lo, hi) == value,
{
}

} // verus!
