//! The programmable interval timer's reload value.
use vstd::prelude::*;

verus! {

/// Input clock of the timer, in Hz.
pub const CLOCK_RATE: u64 = 1_193_180;

/// The reload value that makes counter 0 fire `frequency` times a second,
/// as the low and the high byte that are written to the counter in turn.
pub fn divisor_bytes(frequency: u64) -> (r: (u8, u8))
    requires
        frequency > 0,
    ensures
        r.0 == (CLOCK_RATE / frequency) % 256,
        r.1 == (CLOCK_RATE / frequency / 256) % 256,
{
    let divisor = CLOCK_RATE / frequency;
    proof {
        assert(divisor & 0xFF == divisor % 256 && (divisor >> 8u64) & 0xFF == (divisor / 256) % 256)
            by (bit_vector);
    }
    ((divisor & 0xFF) as u8, ((divisor >> 8) & 0xFF) as u8)
}

} // verus!
