//! The Oracle interval data types: INTERVAL YEAR TO MONTH and INTERVAL DAY TO SECOND

use crate::desc::Descriptor;
use vstd::prelude::*;

verus! {

/// Represents the INTERVAL YEAR TO MONTH data type.
#[derive(Debug, PartialEq, Eq)]
pub struct IntervalYM(pub Descriptor);

/// Represents the INTERVAL DAY TO SECOND data type.
#[derive(Debug, PartialEq, Eq)]
pub struct IntervalDS(pub Descriptor);

} // verus!
