//! The Oracle time-stamp data types: TIMESTAMP, TIMESTAMP WITH TIME ZONE, TIMESTAMP WITH LOCAL TIME ZONE

use crate::desc::Descriptor;
use vstd::prelude::*;

verus! {

/// Represents the TIMESTAMP data type. It stores year, month, day, hour,
/// minute, second and fractional seconds.
#[derive(Debug, PartialEq, Eq)]
pub struct Timestamp(pub Descriptor);

/// Represents the TIMESTAMP WITH TIME ZONE data type.
#[derive(Debug, PartialEq, Eq)]
pub struct TimestampTZ(pub Descriptor);

/// Represents the TIMESTAMP WITH LOCAL TIME ZONE data type.
#[derive(Debug, PartialEq, Eq)]
pub struct TimestampLTZ(pub Descriptor);

} // verus!
