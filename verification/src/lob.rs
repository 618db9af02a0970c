//! Large objects

use crate::desc::Descriptor;
use vstd::prelude::*;

verus! {

/// The owner of the locator of a character large object.
#[derive(Debug, PartialEq, Eq)]
pub struct CLOB(pub Descriptor);

/// The owner of the locator of a binary large object.
#[derive(Debug, PartialEq, Eq)]
pub struct BLOB(pub Descriptor);

/// The owner of the locator of a binary file.
#[derive(Debug, PartialEq, Eq)]
pub struct BFile(pub Descriptor);

} // verus!
