use vstd::prelude::*;

verus! {

/// Doubles its argument; the program entry point prints the addresses of
/// the argument and of the result around this computation.
pub fn func(x: i32) -> (out: i32)
    requires
        -0x4000_0000 <= x < 0x4000_0000,
    ensures
        out == 2 * x,
{
    let out = 2 * x;
    out
}

} // verus!
