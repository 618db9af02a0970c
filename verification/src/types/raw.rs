//! Variable-length binary data

use crate::err::Error;
use vstd::prelude::*;

verus! {

/// The first `n` items of `src`, or all of them where it has fewer.
pub(crate) fn copy_prefix(src: &[u8], n: usize) -> (dst: Vec<u8>)
    ensures
        dst@ == src@.take(if n <= src@.len() { n as int } else { src@.len() as int }),
{
    let end: usize = if n <= src.len() { n } else { src.len() };
    let mut dst: Vec<u8> = Vec::new();
    let mut i: usize = 0;
    while i < end
        invariant
            i <= end <= src@.len(),
            dst@ == src@.take(i as int),
        decreases end - i,
    {
        dst.push(src[i]);
        i += 1;
        assert(src@.take(i as int) == src@.take(i - 1).push(src@[i - 1]));
    }
    dst
}

/// Binary data of the call interface: the bytes and the size of the memory
/// that holds them.
pub struct OCIRaw {
    data: Vec<u8>,
    size: u32,
}

impl OCIRaw {
    #[verifier::type_invariant]
    spec fn fits(self) -> bool {
        self.data@.len() <= self.size
    }

    /// The bytes of the data.
    pub closed spec fn bytes(self) -> Seq<u8> {
        self.data@
    }

    /// The size of the memory in bytes; 0 when there is none.
    pub closed spec fn allocated(self) -> nat {
        self.size as nat
    }
}

/// Empty binary data with `size` bytes of memory.
pub fn new(size: u32) -> (r: Result<OCIRaw, Error>)
    ensures
        r matches Ok(raw) && raw.bytes() == Seq::<u8>::empty() && raw.allocated() == size,
{
    Ok(OCIRaw { data: Vec::new(), size })
}

/// Releases the memory, and the data with it.
pub fn free(raw: &mut OCIRaw)
    ensures
        final(raw).bytes() == Seq::<u8>::empty(),
        final(raw).allocated() == 0,
{
    *raw = OCIRaw { data: Vec::new(), size: 0 };
}

/// The length of the data in bytes. It never exceeds the allocated size.
pub fn len(raw: &OCIRaw) -> (n: usize)
    ensures
        n == raw.bytes().len(),
        n <= raw.allocated(),
{
    proof {
        use_type_invariant(raw);
    }
    raw.data.len()
}

/// The allocated size in bytes.
pub fn capacity(raw: &OCIRaw) -> (n: usize)
    ensures
        n == raw.allocated(),
{
    raw.size as usize
}

/// The size of the memory in bytes; 0 when there is none.
pub fn size(raw: &OCIRaw) -> (n: u32)
    ensures
        n == raw.allocated(),
{
    raw.size
}

/// The bytes of the data.
pub fn as_bytes(raw: &OCIRaw) -> (bytes: &[u8])
    ensures
        bytes@ == raw.bytes(),
{
    raw.data.as_slice()
}

/// Stores fetched bytes, as many of them as the memory holds, and returns
/// how many that is.
pub fn store(raw: &mut OCIRaw, data: &[u8]) -> (kept: usize)
    ensures
        final(raw).allocated() == old(raw).allocated(),
        kept == if data@.len() <= old(raw).allocated() { data@.len() } else { old(raw).allocated() },
        final(raw).bytes() == data@.take(kept as int),
        kept <= u32::MAX,
{
    let size: u32 = raw.size;
    let data = copy_prefix(data, size as usize);
    let kept: usize = data.len();
    *raw = OCIRaw { data, size };
    kept
}

} // verus!
