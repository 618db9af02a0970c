//! Descriptors and handles of the call interface.

use vstd::prelude::*;

verus! {

/// A descriptor or a handle: memory of the call interface that stands for
/// something on the server (a large object, a row, a cursor) or holds a value
/// that only the call interface can read (a timestamp, an interval). The
/// library knows it by its address and by whether a value was put into it.
#[derive(Debug, PartialEq, Eq)]
pub struct Descriptor {
    pub ptr: u64,
    pub init: bool,
}

impl Descriptor {
    /// A descriptor as the call interface allocates it: with nothing in it.
    pub fn new(ptr: u64) -> (desc: Descriptor)
        ensures
            desc == (Descriptor { ptr, init: false }),
    {
        Descriptor { ptr, init: false }
    }

    /// The address of the descriptor.
    pub fn get(&self) -> (ptr: u64)
        ensures
            ptr == self.ptr,
    {
        self.ptr
    }

    /// True when a value was put into the descriptor.
    pub fn is_initialized(&self) -> (init: bool)
        ensures
            init == self.init,
    {
        self.init
    }

    /// Hands out the descriptor and leaves in its place the one at `ptr`,
    /// which holds nothing. A descriptor that holds nothing has nothing to
    /// hand out and stays.
    pub fn take(&mut self, ptr: u64) -> (r: Option<Descriptor>)
        ensures
            old(self).init ==> r == Some(*old(self)) && *final(self) == (Descriptor {
                ptr,
                init: false,
            }),
            !old(self).init ==> r is None && *final(self) == *old(self),
    {
        if self.init {
            let mut fresh = Descriptor::new(ptr);
            self.swap(&mut fresh);
            Some(fresh)
        } else {
            None
        }
    }

    /// Exchanges what the two descriptors are.
    pub fn swap(&mut self, other: &mut Descriptor)
        ensures
            *final(self) == *old(other),
            *final(other) == *old(self),
    {
        let ptr: u64 = self.ptr;
        let init = self.init;
        self.ptr = other.ptr;
        self.init = other.init;
        other.ptr = ptr;
        other.init = init;
    }
}

} // verus!
