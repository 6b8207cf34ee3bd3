//! Ring-buffer index arithmetic for the delay-line effects.
//!
//! The delay, chorus and reverb all keep circular buffers; where an echo
//! reappears is decided entirely by these index computations. The sample
//! values that travel through the lines are floating point and stay in
//! the signal path.

use vstd::prelude::*;

verus! {

/// Where a delay line reads: `delay_samples` behind the write position,
/// wrapped around the ring of `len` slots.
pub fn ring_read_index(write_pos: usize, delay_samples: usize, len: usize) -> (r: usize)
    requires
        write_pos < len,
        delay_samples < len,
    ensures
        r < len,
        r as int == (write_pos - delay_samples + len) % (len as int),
{
    let r = if write_pos >= delay_samples {
        write_pos - delay_samples
    } else {
        len - (delay_samples - write_pos)
    };
    proof {
        let l = len as int;
        let x = write_pos - delay_samples + l;
        assert(l <= x < 2 * l ==> x % l == x - l) by (nonlinear_arith);
        assert(0 <= x < l ==> x % l == x) by (nonlinear_arith);
    }
    r
}

/// The slot one step ahead of `pos` on the ring: where the line writes
/// next.
pub fn ring_next_index(pos: usize, len: usize) -> (r: usize)
    requires
        pos < len,
    ensures
        r < len,
        r as int == (pos + 1) % (len as int),
{
    (pos + 1) % len
}

/// The slot one step behind `pos` on the ring: the neighbouring sample a
/// fractional delay interpolates with.
pub fn ring_prev_index(pos: usize, len: usize) -> (r: usize)
    requires
        pos < len,
    ensures
        r < len,
        r as int == (pos - 1 + len) % (len as int),
{
    let r = if pos == 0 {
        len - 1
    } else {
        pos - 1
    };
    proof {
        let l = len as int;
        let x = pos - 1 + l;
        assert(l <= x < 2 * l ==> x % l == x - l) by (nonlinear_arith);
        assert(0 <= x < l ==> x % l == x) by (nonlinear_arith);
    }
    r
}

} // verus!
