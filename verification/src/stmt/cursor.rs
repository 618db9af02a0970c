//! Cursors that a statement returns

use crate::desc::Descriptor;
use vstd::prelude::*;

verus! {

/// The owner of the statement handle of a nested result set.
#[derive(Debug, PartialEq, Eq)]
pub struct Cursor(pub Descriptor);

impl Cursor {
    /// A cursor that owns the given handle.
    pub fn from_handle(handle: Descriptor) -> (cursor: Cursor)
        ensures
            cursor.0 == handle,
    {
        Cursor(handle)
    }
}

} // verus!
