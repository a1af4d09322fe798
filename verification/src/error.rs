use vstd::prelude::*;

verus! {

/// The error reported when libass fails to hand out an object
/// (a library, a renderer or a track).
#[derive(Debug, Clone, Copy, PartialEq, Eq, Structural)]
pub struct Error;

/// An address handed back by libass: zero stands for a null pointer.
pub open spec fn is_null(addr: usize) -> bool {
    addr == 0
}

/// Reads an object handle that libass returned, given by its address:
/// a null handle is the library's `Error`, any other is kept as it is.
pub fn check_handle(addr: usize) -> (r: Result<usize, Error>)
    ensures
        is_null(addr) <==> r is Err,
        !is_null(addr) ==> r == Ok::<usize, Error>(addr),
        addr == 0 <==> r is Err,
        addr != 0 ==> r == Ok::<usize, Error>(addr),
{
    if addr == 0 {
        Err(Error)
    } else {
        Ok(addr)
    }
}

/// A handle is read as a failure exactly when its address is zero: every
/// non-zero address, however large, is a handle that libass handed out.
pub proof fn lemma_only_zero_is_null(addr: usize)
    ensures
        is_null(addr) <==> addr == 0,
        addr != 0 ==> !is_null(addr),
        !is_null(usize::MAX),
{
}

} // verus!
