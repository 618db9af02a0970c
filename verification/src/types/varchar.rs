//! Fixed or variable-length string

use crate::err::{Error, ErrorView};
use crate::oci;
use crate::types::raw::copy_prefix;
use vstd::prelude::*;
use vstd::string::StringSliceAdditionalSpecFns;
use vstd::string::StringExecFns;
use vstd::utf8::{decode_utf8, encode_utf8, is_char_boundary, valid_utf8};

verus! {

/// The text that the lossy conversion of the standard library makes of
/// `bytes`: the text that the bytes encode where they are valid UTF-8, and
/// otherwise that text with a replacement character for each invalid part.
pub uninterp spec fn lossy_text(bytes: Seq<u8>) -> Seq<char>;

/// Calls `String::from_utf8_lossy`. The result is the lossy text of the
/// bytes, which for valid UTF-8 is the text that they encode.
#[verifier::external_body]
fn from_utf8_lossy(bytes: &[u8]) -> (text: String)
    ensures
        text@ == lossy_text(bytes@),
        valid_utf8(bytes@) ==> text@ == decode_utf8(bytes@),
{
    String::from_utf8_lossy(bytes).into_owned()
}

/// Calls `std::str::from_utf8`. It succeeds exactly on valid UTF-8, and the
/// text that it returns has the given bytes as its encoding.
#[verifier::external_body]
fn from_utf8(bytes: &[u8]) -> (text: Option<&str>)
    ensures
        text is Some <==> valid_utf8(bytes@),
        text matches Some(s) ==> s.spec_bytes() == bytes@,
{
    std::str::from_utf8(bytes).ok()
}

/// The error that the call interface reports when it is asked for the
/// allocated size of a string that has no memory.
pub open spec fn not_allocated() -> ErrorView {
    ErrorView::Oracle(oci::OCI_INTERNAL_ERROR as int, "OCI-21500: internal error code"@)
}

/// A string of the call interface: the bytes of a text and the size of the
/// memory that holds them.
pub struct OCIString {
    data: Vec<u8>,
    size: u32,
}

impl OCIString {
    #[verifier::type_invariant]
    spec fn fits(self) -> bool {
        self.data@.len() <= self.size
    }

    /// The bytes of the text.
    pub closed spec fn bytes(self) -> Seq<u8> {
        self.data@
    }

    /// The size of the memory in bytes; 0 when the string has none.
    pub closed spec fn allocated(self) -> nat {
        self.size as nat
    }
}

/// An empty string with `size` bytes of memory.
pub fn new(size: u32) -> (r: Result<OCIString, Error>)
    ensures
        r matches Ok(txt) && txt.bytes() == Seq::<u8>::empty() && txt.allocated() == size,
{
    Ok(OCIString { data: Vec::new(), size })
}

/// Releases the memory of the string, and its text with it.
pub fn free(txt: &mut OCIString)
    ensures
        final(txt).bytes() == Seq::<u8>::empty(),
        final(txt).allocated() == 0,
{
    *txt = OCIString { data: Vec::new(), size: 0 };
}

/// Changes the size of the memory to `size` bytes. The text is not kept.
pub fn resize(txt: &mut OCIString, size: u32)
    ensures
        final(txt).bytes() == Seq::<u8>::empty(),
        final(txt).allocated() == size,
{
    *txt = OCIString { data: Vec::new(), size };
}

/// The allocated size of the string in bytes. A string without memory has
/// none to report, which is an error.
pub fn capacity(txt: &OCIString) -> (r: Result<usize, Error>)
    ensures
        txt.allocated() > 0 ==> r == Ok::<usize, Error>(txt.allocated() as usize),
        txt.allocated() == 0 ==> (r matches Err(e) && e@ == not_allocated()),
{
    if txt.size == 0 {
        Err(Error::Oracle(oci::OCI_INTERNAL_ERROR, "OCI-21500: internal error code".to_owned()))
    } else {
        Ok(txt.size as usize)
    }
}

/// The size of the memory of the string in bytes; 0 when it has none.
pub fn size(txt: &OCIString) -> (n: u32)
    ensures
        n == txt.allocated(),
{
    txt.size
}

/// The text as an owned string, read leniently.
pub fn to_string(txt: &OCIString) -> (text: String)
    ensures
        text@ == lossy_text(txt.bytes()),
        valid_utf8(txt.bytes()) ==> text@ == decode_utf8(txt.bytes()),
{
    from_utf8_lossy(txt.data.as_slice())
}

/// The bytes of the text.
pub fn as_bytes(txt: &OCIString) -> (bytes: &[u8])
    ensures
        bytes@ == txt.bytes(),
{
    txt.data.as_slice()
}

/// The length of the text in bytes. It never exceeds the allocated size.
pub fn len(txt: &OCIString) -> (n: usize)
    ensures
        n == txt.bytes().len(),
        n <= txt.allocated(),
{
    proof {
        use_type_invariant(txt);
    }
    txt.data.len()
}

/// The text as a string slice, if the bytes are valid UTF-8.
pub fn as_str(txt: &OCIString) -> (text: Option<&str>)
    ensures
        text is Some <==> valid_utf8(txt.bytes()),
        text matches Some(s) ==> s@ == decode_utf8(txt.bytes()),
{
    let text = from_utf8(txt.data.as_slice());
    proof {
        if let Some(s) = text {
            vstd::utf8::encode_utf8_decode_utf8(s@);
        }
    }
    text
}

/// Sets the text to `text`. The memory grows to hold it where it is too
/// small, and keeps its size where it is not.
pub fn assign(txt: &mut OCIString, text: &[u8])
    requires
        text@.len() <= u32::MAX,
    ensures
        final(txt).bytes() == text@,
        final(txt).allocated() == if old(txt).allocated() >= text@.len() {
            old(txt).allocated()
        } else {
            text@.len()
        },
{
    let n: usize = text.len();
    let size: u32 = if txt.size as usize >= n { txt.size } else { n as u32 };
    let data = copy_prefix(text, n);
    assert(text@.take(n as int) == text@);
    *txt = OCIString { data, size };
}

/// Stores fetched bytes, as many of them as the memory holds, and returns
/// how many that is.
pub fn store(txt: &mut OCIString, data: &[u8]) -> (kept: usize)
    ensures
        final(txt).allocated() == old(txt).allocated(),
        kept == if data@.len() <= old(txt).allocated() { data@.len() } else { old(txt).allocated() },
        final(txt).bytes() == data@.take(kept as int),
        kept <= u32::MAX,
{
    let size: u32 = txt.size;
    let data = copy_prefix(data, size as usize);
    let kept: usize = data.len();
    *txt = OCIString { data, size };
    kept
}

/// The number of bytes of its content that a Varchar shows at most.
pub const MAX_SHOWN: usize = 50;

/// Represents Oracle character types - VARCHAR, LONG, etc.
pub struct Varchar {
    txt: OCIString,
}

impl View for Varchar {
    type V = Seq<char>;

    closed spec fn view(&self) -> Seq<char> {
        decode_utf8(self.txt.bytes())
    }
}

impl Varchar {
    #[verifier::type_invariant]
    spec fn is_text(self) -> bool {
        valid_utf8(self.txt.bytes())
    }

    /// The size of the memory of the string in bytes.
    pub closed spec fn allocated(&self) -> nat {
        self.txt.allocated()
    }

    /// The length of the text in bytes.
    pub closed spec fn byte_len(&self) -> nat {
        self.txt.bytes().len()
    }

    /// Returns a new Varchar constructed from the specified string
    pub fn from(text: &str) -> (r: Result<Self, Error>)
        requires
            text.spec_bytes().len() <= u32::MAX,
        ensures
            r matches Ok(v) && v@ == text@ && v.byte_len() == text.spec_bytes().len()
                && v.allocated() == v.byte_len(),
    {
        let mut txt = OCIString { data: Vec::new(), size: 0 };
        assign(&mut txt, text.as_bytes());
        proof {
            vstd::utf8::encode_utf8_valid_utf8(text@);
            vstd::utf8::encode_utf8_decode_utf8(text@);
        }
        Ok(Self { txt })
    }

    /// Returns a new Varchar constructed with the copy of the text from the
    /// `other` Varchar.
    pub fn from_varchar(other: &Varchar) -> (r: Result<Self, Error>)
        ensures
            r matches Ok(v) && v@ == other@ && v.byte_len() == other.byte_len()
                && v.allocated() == v.byte_len(),
    {
        proof {
            use_type_invariant(other);
            use_type_invariant(&other.txt);
        }
        let mut txt = OCIString { data: Vec::new(), size: 0 };
        assign(&mut txt, as_bytes(&other.txt));
        Ok(Self { txt })
    }

    /// Returns a new Varchar with a copy of the text of a string of the call
    /// interface. Bytes that are no text cannot be held.
    pub fn from_ocistring(oci_str: &OCIString) -> (r: Result<Self, Error>)
        ensures
            valid_utf8(oci_str.bytes()) ==> (r matches Ok(v) && v@ == decode_utf8(oci_str.bytes())
                && v.byte_len() == oci_str.bytes().len() && v.allocated() == v.byte_len()),
            !valid_utf8(oci_str.bytes()) ==> (r matches Err(e) && e@ == crate::err::cannot_convert(
                "Text"@,
                "Varchar"@,
            )),
    {
        proof {
            use_type_invariant(oci_str);
        }
        if as_str(oci_str).is_some() {
            let mut txt = OCIString { data: Vec::new(), size: 0 };
            assign(&mut txt, as_bytes(oci_str));
            Ok(Self { txt })
        } else {
            Err(Error::conversion("Text", "Varchar"))
        }
    }

    /// Returns a new Varchar with the memory allocated for the text.
    pub fn with_capacity(size: usize) -> (r: Result<Self, Error>)
        requires
            size <= u32::MAX,
        ensures
            r matches Ok(v) && v@ == Seq::<char>::empty() && v.byte_len() == 0 && v.allocated()
                == size,
    {
        let txt = OCIString { data: Vec::new(), size: size as u32 };
        proof {
            assert(decode_utf8(Seq::<u8>::empty()) == Seq::<char>::empty()) by {
                vstd::utf8::encode_utf8_decode_utf8(Seq::<char>::empty());
                assert(encode_utf8(Seq::<char>::empty()) == Seq::<u8>::empty());
            }
            assert(valid_utf8(Seq::<u8>::empty()));
        }
        Ok(Self { txt })
    }

    /// Sets the content of self to `text`
    pub fn set(&mut self, text: &str) -> (r: Result<(), Error>)
        requires
            text.spec_bytes().len() <= u32::MAX,
        ensures
            r is Ok,
            final(self)@ == text@,
            final(self).byte_len() == text.spec_bytes().len(),
            final(self).allocated() == if old(self).allocated() >= text.spec_bytes().len() {
                old(self).allocated()
            } else {
                text.spec_bytes().len()
            },
    {
        proof {
            vstd::utf8::encode_utf8_valid_utf8(text@);
            vstd::utf8::encode_utf8_decode_utf8(text@);
        }
        let mut txt = OCIString { data: Vec::new(), size: self.txt.size };
        assign(&mut txt, text.as_bytes());
        *self = Varchar { txt };
        Ok(())
    }

    /// Returns the size of the string in bytes.
    pub fn len(&self) -> (n: usize)
        ensures
            n == self.byte_len(),
            n <= self.allocated(),
    {
        len(&self.txt)
    }

    /// Returns the allocated size of string memory in bytes
    pub fn capacity(&self) -> (r: Result<usize, Error>)
        ensures
            self.allocated() > 0 ==> r == Ok::<usize, Error>(self.allocated() as usize),
            self.allocated() == 0 ==> (r matches Err(e) && e@ == not_allocated()),
    {
        capacity(&self.txt)
    }

    /// Changes the size of the memory of a string in the object cache.
    /// Content of the string is not preserved.
    pub fn resize(&mut self, new_size: usize) -> (r: Result<(), Error>)
        requires
            new_size <= u32::MAX,
        ensures
            r is Ok,
            final(self)@ == Seq::<char>::empty(),
            final(self).byte_len() == 0,
            final(self).allocated() == new_size,
    {
        proof {
            assert(decode_utf8(Seq::<u8>::empty()) == Seq::<char>::empty()) by {
                vstd::utf8::encode_utf8_decode_utf8(Seq::<char>::empty());
                assert(encode_utf8(Seq::<char>::empty()) == Seq::<u8>::empty());
            }
            assert(valid_utf8(Seq::<u8>::empty()));
        }
        let mut txt = OCIString { data: Vec::new(), size: 0 };
        resize(&mut txt, new_size as u32);
        *self = Varchar { txt };
        Ok(())
    }

    /// Extracts a string slice containing the entire content of the VARCHAR.
    pub fn as_str(&self) -> (text: &str)
        ensures
            text@ == self@,
    {
        proof {
            use_type_invariant(self);
        }
        match as_str(&self.txt) {
            Some(text) => text,
            None => "",
        }
    }

    /// Returns the string data: the bytes that encode the text
    pub fn as_raw_ptr(&self) -> (bytes: &[u8])
        ensures
            bytes@ == encode_utf8(self@),
            bytes@.len() == self.byte_len(),
    {
        proof {
            use_type_invariant(self);
            vstd::utf8::decode_utf8_encode_utf8(self.txt.bytes());
        }
        as_bytes(&self.txt)
    }

    /// The text by which a Varchar shows itself: the type and the content in
    /// quotes, and of a content of more than `MAX_SHOWN` bytes the first
    /// `MAX_SHOWN` and three dots. The content can be cut only between two
    /// characters.
    pub open spec fn shown(&self) -> Seq<char> {
        if self.byte_len() == 0 {
            "VARCHAR ''"@
        } else if self.byte_len() <= MAX_SHOWN {
            "VARCHAR '"@ + self@ + "'"@
        } else {
            "VARCHAR '"@ + decode_utf8(encode_utf8(self@).subrange(0, MAX_SHOWN as int)) + "...'"@
        }
    }

    /// Returns the text by which a Varchar shows itself.
    pub fn fmt(&self) -> (text: String)
        requires
            self.byte_len() > MAX_SHOWN ==> is_char_boundary(encode_utf8(self@), MAX_SHOWN as int),
        ensures
            text@ == self.shown(),
    {
        proof {
            use_type_invariant(self);
            vstd::utf8::decode_utf8_encode_utf8(self.txt.bytes());
        }
        let len: usize = self.len();
        if len == 0 {
            String::from_str("VARCHAR ''")
        } else if len <= MAX_SHOWN {
            String::from_str("VARCHAR '").concat(self.as_str()).concat("'")
        } else {
            let (head, _) = self.as_str().split_at(MAX_SHOWN);
            proof {
                vstd::utf8::encode_utf8_decode_utf8(head@);
            }
            String::from_str("VARCHAR '").concat(head).concat("...'")
        }
    }

    /// The text as an owned string.
    pub fn to_string(&self) -> (text: String)
        ensures
            text@ == self@,
    {
        proof {
            use_type_invariant(self);
        }
        to_string(&self.txt)
    }
}

} // verus!
