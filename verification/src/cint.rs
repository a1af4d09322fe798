use vstd::prelude::*;

verus! {

/// The C `int` for a flag: 1 for `true`, 0 for `false`.
pub fn c_bool(b: bool) -> (r: i32)
    ensures
        r == (if b { 1i32 } else { 0i32 }),
{
    if b {
        1
    } else {
        0
    }
}

/// The C `int` length passed to libass for a buffer of `len` bytes.
///
/// The conversion truncates to 32 bits: a length that fits an `int` passes
/// unchanged, a larger one wraps.
pub fn c_int_len(len: usize) -> (r: i32)
    ensures
        r == len as i32,
        len <= i32::MAX ==> r == len,
{
    len as i32
}

/// The signed C `int` that carries a set of override bits: the same 32 bits,
/// read as a signed number.
pub fn override_bits_arg(bits: u32) -> (r: i32)
    ensures
        r == bits as i32,
        r as u32 == bits,
        bits <= i32::MAX ==> r == bits,
{
    let r = bits as i32;
    assert((bits as i32) as u32 == bits) by (bit_vector);
    r
}

} // verus!
