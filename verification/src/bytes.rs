//! Fixed-width prefixes of byte slices, used when splitting a raw
//! input chunk into the fields of a binary record.

use vstd::prelude::*;

verus! {

/// The first 8 bytes of `u` as an array.
pub fn u8_8(u: &[u8]) -> (r: [u8; 8])
    requires
        u@.len() >= 8,
    ensures
        forall|i: int| 0 <= i < 8 ==> r@[i] == u@[i],
{
    [u[0], u[1], u[2], u[3], u[4], u[5], u[6], u[7]]
}

/// The first 4 bytes of `u` as an array.
pub fn u8_4(u: &[u8]) -> (r: [u8; 4])
    requires
        u@.len() >= 4,
    ensures
        forall|i: int| 0 <= i < 4 ==> r@[i] == u@[i],
{
    [u[0], u[1], u[2], u[3]]
}

/// The first 2 bytes of `u` as an array.
pub fn u8_2(u: &[u8]) -> (r: [u8; 2])
    requires
        u@.len() >= 2,
    ensures
        forall|i: int| 0 <= i < 2 ==> r@[i] == u@[i],
{
    [u[0], u[1]]
}

} // verus!
