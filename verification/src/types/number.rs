//! Oracle NUMBER

use crate::oci;
use vstd::prelude::*;

verus! {

/// A NUMBER in the form of the call interface: a length byte, an exponent
/// byte and up to twenty bytes of mantissa. The library carries the bytes and
/// does not read them.
#[derive(Clone, Copy, Debug, PartialEq, Eq)]
pub struct OCINumber {
    pub bytes: [u8; 22],
}

/// True of a NUMBER whose bytes are all zero.
pub open spec fn is_zero(num: OCINumber) -> bool {
    forall|i: int| 0 <= i < oci::OCI_NUMBER_SIZE ==> num.bytes@[i] == 0
}

/// A NUMBER with all bytes zero, which is what a buffer holds before
/// anything is fetched into it.
pub fn new() -> (num: OCINumber)
    ensures
        is_zero(num),
{
    OCINumber { bytes: [0u8; 22] }
}

/// Represents Oracle NUMBER.
#[derive(Clone, Copy, Debug, PartialEq, Eq)]
pub struct Number {
    pub num: OCINumber,
}

/// A `Number` with a copy of the given value.
pub fn from_number(from_num: &OCINumber) -> (num: Number)
    ensures
        num.num == *from_num,
{
    Number { num: *from_num }
}

/// A `Number` that owns the given value.
pub fn new_number(num: OCINumber) -> (r: Number)
    ensures
        r.num == num,
{
    Number { num }
}

/// A BINARY_FLOAT: the bits of an IEEE 754 single precision number.
#[derive(Clone, Copy, Debug, PartialEq, Eq, Structural)]
pub struct BinaryFloat {
    pub bits: u32,
}

/// A BINARY_DOUBLE: the bits of an IEEE 754 double precision number.
#[derive(Clone, Copy, Debug, PartialEq, Eq, Structural)]
pub struct BinaryDouble {
    pub bits: u64,
}

} // verus!
