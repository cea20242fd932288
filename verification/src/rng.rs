use vstd::prelude::*;

verus! {

/// Relies on macroquad's `rand::gen_range` (quad-rand): for an integer type
/// it scales one 32-bit draw of the global generator into `[low, high)`.
/// With `low < high` and both below the bound here, the scaling arithmetic
/// stays exact enough that the truncated result is at least `low` and
/// strictly below `high`; nothing more holds of a pseudo-random draw.
#[verifier::external_body]
pub fn gen_range_usize(low: usize, high: usize) -> (r: usize)
    requires
        low < high,
        high <= 0x10_0000,
    ensures
        low <= r < high,
{
    macroquad::rand::gen_range(low, high)
}

} // verus!
