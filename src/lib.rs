//! Pixuli image library: the arithmetic probe that host bindings call to check
//! that the boundary between the host runtime and the compiled module works.

use vstd::prelude::*;

verus! {

/// The number of distinct `u32` values; sums are reduced modulo this.
pub open spec fn u32_modulus() -> int {
    0x1_0000_0000
}

/// What `plus_100` returns: `input + 100`, reduced modulo 2^32.
pub open spec fn plus_100_value(input: u32) -> int {
    (input as int + 100) % u32_modulus()
}

/// Adds 100 to `input`. The addition wraps silently: inputs from
/// `u32::MAX - 99` up come back as `input + 100 - 2^32`.
pub fn plus_100(input: u32) -> (r: u32)
    ensures
        r as int == plus_100_value(input),
        input <= u32::MAX - 100 ==> r as int == input as int + 100,
        input > u32::MAX - 100 ==> r as int == input as int + 100 - u32_modulus(),
{
    input.wrapping_add(100)
}

/// The result of `plus_100` depends on its input alone: two results that its
/// contract admits for one input are the same value.
pub proof fn plus_100_is_deterministic(input: u32, r1: u32, r2: u32)
    requires
        r1 as int == plus_100_value(input),
        r2 as int == plus_100_value(input),
    ensures
        r1 == r2,
{
}

} // verus!
