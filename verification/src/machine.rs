//! Machine-word arithmetic as the processor performs it: 64-bit addition and
//! subtraction wrap modulo 2^64.  Address computations of the relocators and
//! of the stack-probe shim are stated over these operations.

use vstd::prelude::*;

verus! {

/// The value a 64-bit register holds after adding `y` to `x`.
pub open spec fn wadd(x: u64, y: u64) -> u64 {
    vstd::wrapping::u64_specs::wrapping_add(x, y)
}

/// The value a 64-bit register holds after subtracting `y` from `x`.
pub open spec fn wsub(x: u64, y: u64) -> u64 {
    vstd::wrapping::u64_specs::wrapping_sub(x, y)
}

/// Wrapping 64-bit addition.
pub fn word_add(x: u64, y: u64) -> (r: u64)
    ensures
        r == wadd(x, y),
{
    x.wrapping_add(y)
}

/// Wrapping 64-bit subtraction.
pub fn word_sub(x: u64, y: u64) -> (r: u64)
    ensures
        r == wsub(x, y),
{
    x.wrapping_sub(y)
}

/// Adding a nonzero delta a second time always moves a word away from the
/// value one addition gave it: patching a pointer twice cannot reproduce the
/// correctly patched pointer.
pub proof fn lemma_wadd_again_moves(v: u64, d: u64)
    requires
        d != 0,
    ensures
        wadd(wadd(v, d), d) != wadd(v, d),
{
}

/// Two loads of one image at different base addresses patch each pointer to
/// values whose distance is exactly the distance of the bases: the patched
/// word tracks the load address proportionally.
pub proof fn lemma_wadd_tracks_base(a: u64, b1: u64, b2: u64)
    ensures
        wadd(wadd(b1, a), wsub(b2, b1)) == wadd(b2, a),
{
}

} // verus!
