//! The ROWID data type

use crate::desc::Descriptor;
use vstd::prelude::*;

verus! {

/// Represents ROWID: the owner of a row identifier descriptor.
#[derive(Debug, PartialEq, Eq)]
pub struct RowID(pub Descriptor);

impl RowID {
    /// True when the descriptor holds the identifier of a row.
    pub fn is_initialized(&self) -> (init: bool)
        ensures
            init == self.0.init,
    {
        self.0.is_initialized()
    }
}

} // verus!
