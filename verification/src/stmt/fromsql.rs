//! Conversion of the values of columns into the types that callers ask for.
//!
//! A conversion has two steps. `request` looks at the column and says what
//! the call interface has to do for it, if anything: format a number, convert
//! a timestamp, allocate the descriptor that takes the place of one that is
//! handed out. The caller has that done and passes the outcome to `value`,
//! which makes the value.

use crate::desc::Descriptor;
use crate::err::{
    already_consumed, cannot_convert, cannot_convert_null, outcome, text_outcome, Error, ErrorView,
};
use crate::lob::{BFile, BLOB, CLOB};
use crate::oci;
use crate::rowid::RowID;
use crate::stmt::cols::{Column, ColumnBuffer, Fetched};
use crate::stmt::cursor::Cursor;
use crate::types::date::{self, Date, OCIDate};
use crate::types::interval::{IntervalDS, IntervalYM};
use crate::types::number::{self, BinaryDouble, BinaryFloat, Number, OCINumber};
use crate::types::raw;
use crate::types::timestamp::{Timestamp, TimestampLTZ, TimestampTZ};
use crate::types::varchar::{self, lossy_text, Varchar};
use vstd::prelude::*;
use vstd::utf8::{decode_utf8, encode_utf8, valid_utf8};

verus! {

/// Format in which a NUMBER is written as text: the shortest text that
/// gives the number in full.
pub const NUMBER_FORMAT: &'static str = "TM";

/// Format in which a DATE is written as text.
pub const DATE_FORMAT: &'static str = "YYYY-MM-DD HH24:MI:SS";

/// Format in which a TIMESTAMP is written as text.
pub const TIMESTAMP_FORMAT: &'static str = "YYYY-MM-DD HH24:MI:SSXFF";

/// Format in which a timestamp with a time zone is written as text.
pub const TIMESTAMP_TZ_FORMAT: &'static str = "YYYY-MM-DD HH24:MI:SSXFF TZH:TZM";

/// What the call interface has to do before a value can be made. A number or
/// a date is given by its value, a descriptor by its address.
#[derive(Clone, Copy, Debug, PartialEq, Eq)]
#[allow(inconsistent_fields)]
pub enum Request {
    /// Nothing: the column holds all that the value needs.
    Nothing,
    /// Write the number as text in `NUMBER_FORMAT`.
    NumberToText { num: OCINumber },
    /// Write the date as text in `DATE_FORMAT`.
    DateToText { date: OCIDate },
    /// Write the timestamp as text with `fsprec` digits of fractional
    /// seconds, in `TIMESTAMP_TZ_FORMAT` where `zoned`, else in
    /// `TIMESTAMP_FORMAT`.
    TimestampToText { ts: u64, zoned: bool, fsprec: u8 },
    /// Write the interval as text with `lfprec` digits of the leading field
    /// and `fsprec` digits of fractional seconds.
    IntervalToText { interval: u64, lfprec: u8, fsprec: u8 },
    /// Write the single precision number as decimal text.
    FloatToText { bits: u32 },
    /// Write the double precision number as decimal text.
    DoubleToText { bits: u64 },
    /// Write the row identifier as text.
    RowidToText { rowid: u64 },
    /// Write the binary data of the column as text: two hexadecimal digits
    /// for each byte.
    BinaryToText,
    /// Convert the number to an integer of `size` bytes.
    NumberToInt { num: OCINumber, size: u32, signed: bool },
    /// Convert the single precision number to an integer of `size` bytes.
    FloatToInt { bits: u32, size: u32, signed: bool },
    /// Convert the double precision number to an integer of `size` bytes.
    DoubleToInt { bits: u64, size: u32, signed: bool },
    /// Convert the interval to an integer of `size` bytes.
    IntervalToInt { interval: u64, size: u32, signed: bool },
    /// Convert the number to a single precision number.
    NumberToFloat { num: OCINumber },
    /// Convert the number to a double precision number.
    NumberToDouble { num: OCINumber },
    /// Widen the single precision number.
    FloatToDouble { bits: u32 },
    /// Narrow the double precision number.
    DoubleToFloat { bits: u64 },
    /// Convert the interval to a single precision number.
    IntervalToFloat { interval: u64 },
    /// Convert the interval to a double precision number.
    IntervalToDouble { interval: u64 },
    /// Convert the single precision number to a NUMBER.
    FloatToNumber { bits: u32 },
    /// Convert the double precision number to a NUMBER.
    DoubleToNumber { bits: u64 },
    /// Convert the interval to a NUMBER.
    IntervalToNumber { interval: u64 },
    /// Allocate a descriptor of type `dtype` and assign it the value of the
    /// descriptor `src`, which is of the same type.
    Copy { src: u64, dtype: u32 },
    /// Allocate a timestamp descriptor of type `dtype` and put into it the
    /// timestamp `src`, which is of another type, converted.
    ConvertTimestamp { src: u64, dtype: u32 },
    /// Allocate a descriptor of type `dtype`.
    NewDescriptor { dtype: u32 },
    /// Allocate a handle of type `htype`.
    NewHandle { htype: u32 },
}

/// The outcome of what was requested.
#[derive(Debug, PartialEq, Eq)]
pub enum Reply {
    /// Nothing was requested.
    Nothing,
    Text(String),
    Int(i128),
    /// The bits of a single precision number.
    Float(u32),
    /// The bits of a double precision number.
    Double(u64),
    Number(OCINumber),
    /// The address of the descriptor or handle that was allocated.
    Descriptor(u64),
    /// The call interface failed.
    Failed(Error),
}

impl Request {
    /// The format in which the text that is requested is to be written, for
    /// the requests that take one.
    pub open spec fn format_of(self) -> Option<Seq<char>> {
        match self {
            Request::NumberToText { .. } => Some(NUMBER_FORMAT@),
            Request::DateToText { .. } => Some(DATE_FORMAT@),
            Request::TimestampToText { zoned, .. } => Some(
                if zoned {
                    TIMESTAMP_TZ_FORMAT@
                } else {
                    TIMESTAMP_FORMAT@
                },
            ),
            _ => None,
        }
    }

    /// Returns the format in which the text that is requested is to be
    /// written, for the requests that take one.
    pub fn format(&self) -> (r: Option<&'static str>)
        ensures
            match (r, self.format_of()) {
                (Some(fmt), Some(text)) => fmt@ == text,
                (None, None) => true,
                _ => false,
            },
    {
        match self {
            Request::NumberToText { .. } => Some(NUMBER_FORMAT),
            Request::DateToText { .. } => Some(DATE_FORMAT),
            Request::TimestampToText { zoned, .. } => Some(
                if *zoned {
                    TIMESTAMP_TZ_FORMAT
                } else {
                    TIMESTAMP_FORMAT
                },
            ),
            _ => None,
        }
    }
}

impl Reply {
    /// The name of the kind of the reply.
    pub open spec fn kind_name(self) -> Seq<char> {
        match self {
            Reply::Nothing => "Nothing"@,
            Reply::Text(_) => "Text"@,
            Reply::Int(_) => "Int"@,
            Reply::Float(_) => "Float"@,
            Reply::Double(_) => "Double"@,
            Reply::Number(_) => "Number"@,
            Reply::Descriptor(_) => "Descriptor"@,
            Reply::Failed(_) => "Failed"@,
        }
    }

    /// Returns the name of the kind of the reply.
    pub fn kind(&self) -> (name: &'static str)
        ensures
            name@ == self.kind_name(),
    {
        match self {
            Reply::Nothing => "Nothing",
            Reply::Text(_) => "Text",
            Reply::Int(_) => "Int",
            Reply::Float(_) => "Float",
            Reply::Double(_) => "Double",
            Reply::Number(_) => "Number",
            Reply::Descriptor(_) => "Descriptor",
            Reply::Failed(_) => "Failed",
        }
    }
}

/// A trait for types which instances can be created from the returned Oracle values.
pub trait FromSql<'a>: Sized {
    /// True of the types that have a value for NULL.
    spec fn nullable() -> bool;

    /// Says what has to be done before `value` can convert the column, or
    /// that the conversion is not defined. A NULL needs nothing where the
    /// type has a value for it, and cannot be converted where it has none.
    fn request(col: &Column) -> (r: Result<Request, Error>)
        ensures
            col.null() && Self::nullable() ==> r == Ok::<Request, Error>(Request::Nothing),
            col.null() && !Self::nullable() ==> r is Err,
    ;

    /// Converts, if possible, data stored in the column buffer into the
    /// requested type and returns the instance of it. Returns error if the
    /// conversion fails or not defined from the type of the column buffer
    /// into a requested type. A NULL is converted where the type has a value
    /// for it, and is an error where it has none; in both cases the column
    /// stays as it is. Whatever happens, the column keeps its attributes, its
    /// status and the kind of its buffer.
    fn value(col: &'a mut Column, reply: Reply) -> (r: Result<Self, Error>)
        ensures
            final(col).inf == old(col).inf,
            final(col).len == old(col).len,
            final(col).ind == old(col).ind,
            final(col).buf.sql_type() == old(col).buf.sql_type(),
            old(col).null() ==> final(col).buf == old(col).buf,
            old(col).null() && Self::nullable() ==> r is Ok,
            old(col).null() && !Self::nullable() ==> r is Err,
    ;
}

impl<'a, T: FromSql<'a>> FromSql<'a> for Option<T> {
    open spec fn nullable() -> bool {
        true
    }

    /// A NULL needs nothing; every other value needs what `T` needs.
    fn request(col: &Column) -> (r: Result<Request, Error>)
        ensures
            !col.null() ==> call_ensures(T::request, (col,), r),
    {
        if col.is_null() {
            Ok(Request::Nothing)
        } else {
            T::request(col)
        }
    }

    /// A NULL is `None`, and the column stays as it is. Every other value
    /// is what `T` makes of the column and the reply: the column is given to
    /// `T` as it is, together with the reply, and what `T` returns comes
    /// back, its value as `Some` and its error as it is, with the column as
    /// `T` left it.
    fn value(col: &'a mut Column, reply: Reply) -> (r: Result<Self, Error>)
        ensures
            old(col).null() ==> r == Ok::<Self, Error>(None) && *final(col) == *old(col),
            !old(col).null() ==> exists|inner: Result<T, Error>, given: &mut Column|
                {
                    &&& *given == *old(col)
                    &&& *final(given) == *final(col)
                    &&& call_ensures(T::value, (given, reply), inner)
                    &&& r == wrapped(inner)
                },
    {
        if col.is_null() {
            Ok(None)
        } else {
            let inner = T::value(col, reply);
            match inner {
                Ok(v) => Ok(Some(v)),
                Err(e) => Err(e),
            }
        }
    }
}

/// What a conversion into `Option<T>` makes of the outcome of the conversion
/// into `T`: its value as `Some`, its error as it is.
pub open spec fn wrapped<T>(inner: Result<T, Error>) -> Result<Option<T>, Error> {
    match inner {
        Ok(v) => Ok(Some(v)),
        Err(e) => Err(e),
    }
}

/// The error of a buffer that does not convert into the type `wanted`.
fn mismatch(buf: &ColumnBuffer, wanted: &str) -> (e: Error)
    ensures
        e@ == cannot_convert(buf.kind_name(), wanted@),
{
    Error::conversion(buf.kind(), wanted)
}

/// The text that a reply gives: its text, the error of the call interface,
/// or that the reply does not convert where it is of another kind.
pub open spec fn replied_text(reply: Reply, wanted: Seq<char>) -> Result<Seq<char>, ErrorView> {
    match reply {
        Reply::Text(text) => Ok(text@),
        Reply::Failed(e) => Err(e@),
        _ => Err(cannot_convert(reply.kind_name(), wanted)),
    }
}

/// Takes from a reply what the type `wanted` is made of.
fn text_of(reply: Reply, wanted: &str) -> (r: Result<String, Error>)
    ensures
        text_outcome(r) == replied_text(reply, wanted@),
{
    match reply {
        Reply::Text(text) => Ok(text),
        Reply::Failed(e) => Err(e),
        other => Err(Error::conversion(other.kind(), wanted)),
    }
}

/// The single precision number that a reply gives.
pub open spec fn replied_float(reply: Reply, wanted: Seq<char>) -> Result<BinaryFloat, ErrorView> {
    match reply {
        Reply::Float(bits) => Ok(BinaryFloat { bits }),
        Reply::Failed(e) => Err(e@),
        _ => Err(cannot_convert(reply.kind_name(), wanted)),
    }
}

/// Takes from a reply what the type `wanted` is made of.
fn float_of(reply: Reply, wanted: &str) -> (r: Result<BinaryFloat, Error>)
    ensures
        outcome(r) == replied_float(reply, wanted@),
{
    match reply {
        Reply::Float(bits) => Ok(BinaryFloat { bits }),
        Reply::Failed(e) => Err(e),
        other => Err(Error::conversion(other.kind(), wanted)),
    }
}

/// The double precision number that a reply gives.
pub open spec fn replied_double(reply: Reply, wanted: Seq<char>) -> Result<BinaryDouble, ErrorView> {
    match reply {
        Reply::Double(bits) => Ok(BinaryDouble { bits }),
        Reply::Failed(e) => Err(e@),
        _ => Err(cannot_convert(reply.kind_name(), wanted)),
    }
}

/// Takes from a reply what the type `wanted` is made of.
fn double_of(reply: Reply, wanted: &str) -> (r: Result<BinaryDouble, Error>)
    ensures
        outcome(r) == replied_double(reply, wanted@),
{
    match reply {
        Reply::Double(bits) => Ok(BinaryDouble { bits }),
        Reply::Failed(e) => Err(e),
        other => Err(Error::conversion(other.kind(), wanted)),
    }
}

/// The NUMBER that a reply gives.
pub open spec fn replied_number(reply: Reply, wanted: Seq<char>) -> Result<Number, ErrorView> {
    match reply {
        Reply::Number(num) => Ok(Number { num }),
        Reply::Failed(e) => Err(e@),
        _ => Err(cannot_convert(reply.kind_name(), wanted)),
    }
}

/// Takes from a reply what the type `wanted` is made of.
fn number_of(reply: Reply, wanted: &str) -> (r: Result<Number, Error>)
    ensures
        outcome(r) == replied_number(reply, wanted@),
{
    match reply {
        Reply::Number(num) => Ok(number::new_number(num)),
        Reply::Failed(e) => Err(e),
        other => Err(Error::conversion(other.kind(), wanted)),
    }
}

/// The descriptor that a reply brings with a value in it.
pub open spec fn replied_copy(reply: Reply, wanted: Seq<char>) -> Result<Descriptor, ErrorView> {
    match reply {
        Reply::Descriptor(ptr) => Ok(Descriptor { ptr, init: true }),
        Reply::Failed(e) => Err(e@),
        _ => Err(cannot_convert(reply.kind_name(), wanted)),
    }
}

/// Takes from a reply what the type `wanted` is made of.
fn copy_of(reply: Reply, wanted: &str) -> (r: Result<Descriptor, Error>)
    ensures
        outcome(r) == replied_copy(reply, wanted@),
{
    match reply {
        Reply::Descriptor(ptr) => Ok(Descriptor { ptr, init: true }),
        Reply::Failed(e) => Err(e),
        other => Err(Error::conversion(other.kind(), wanted)),
    }
}

/// What has to be done to have the value of a column as text, for the type
/// `wanted`. Every buffer that holds a value can be read as text. A large
/// object and a cursor hold no value but stand for one on the server: they
/// are read as their own type only.
pub open spec fn text_request(col: Column, wanted: Seq<char>) -> Result<Request, ErrorView> {
    if col.null() {
        Err(cannot_convert_null(wanted))
    } else {
        match col.buf {
            ColumnBuffer::Text(_) => Ok(Request::Nothing),
            ColumnBuffer::Number(num) => Ok(Request::NumberToText { num }),
            ColumnBuffer::Date(date) => Ok(Request::DateToText { date }),
            ColumnBuffer::Timestamp(ts) => Ok(
                Request::TimestampToText { ts: ts.ptr, zoned: false, fsprec: 3 },
            ),
            ColumnBuffer::TimestampTZ(ts) => Ok(
                Request::TimestampToText { ts: ts.ptr, zoned: true, fsprec: 3 },
            ),
            ColumnBuffer::TimestampLTZ(ts) => Ok(
                Request::TimestampToText { ts: ts.ptr, zoned: true, fsprec: 3 },
            ),
            ColumnBuffer::IntervalYM(interval) => Ok(
                Request::IntervalToText { interval: interval.ptr, lfprec: 4, fsprec: 3 },
            ),
            ColumnBuffer::IntervalDS(interval) => Ok(
                Request::IntervalToText { interval: interval.ptr, lfprec: 9, fsprec: 5 },
            ),
            ColumnBuffer::Float(bits) => Ok(Request::FloatToText { bits }),
            ColumnBuffer::Double(bits) => Ok(Request::DoubleToText { bits }),
            ColumnBuffer::Rowid(rowid) => Ok(Request::RowidToText { rowid: rowid.ptr }),
            ColumnBuffer::Binary(_) => Ok(Request::BinaryToText),
            _ => Err(cannot_convert(col.buf.kind_name(), wanted)),
        }
    }
}

/// Says what has to be done to have the value of a column as text.
fn request_text(col: &Column, wanted: &str) -> (r: Result<Request, Error>)
    ensures
        outcome(r) == text_request(*col, wanted@),
{
    if col.is_null() {
        return Err(Error::null(wanted));
    }
    match &col.buf {
        ColumnBuffer::Text(_) => Ok(Request::Nothing),
        ColumnBuffer::Number(num) => Ok(Request::NumberToText { num: *num }),
        ColumnBuffer::Date(date) => Ok(Request::DateToText { date: *date }),
        ColumnBuffer::Timestamp(ts) => Ok(
            Request::TimestampToText { ts: ts.get(), zoned: false, fsprec: 3 },
        ),
        ColumnBuffer::TimestampTZ(ts) => Ok(
            Request::TimestampToText { ts: ts.get(), zoned: true, fsprec: 3 },
        ),
        ColumnBuffer::TimestampLTZ(ts) => Ok(
            Request::TimestampToText { ts: ts.get(), zoned: true, fsprec: 3 },
        ),
        ColumnBuffer::IntervalYM(interval) => Ok(
            Request::IntervalToText { interval: interval.get(), lfprec: 4, fsprec: 3 },
        ),
        ColumnBuffer::IntervalDS(interval) => Ok(
            Request::IntervalToText { interval: interval.get(), lfprec: 9, fsprec: 5 },
        ),
        ColumnBuffer::Float(bits) => Ok(Request::FloatToText { bits: *bits }),
        ColumnBuffer::Double(bits) => Ok(Request::DoubleToText { bits: *bits }),
        ColumnBuffer::Rowid(rowid) => Ok(Request::RowidToText { rowid: rowid.get() }),
        ColumnBuffer::Binary(_) => Ok(Request::BinaryToText),
        other => Err(mismatch(other, wanted)),
    }
}

/// The value of a column as a `String`: the text of a text buffer read
/// leniently, and for every other buffer that holds a value the text of the
/// reply.
pub open spec fn string_value(col: Column, reply: Reply) -> Result<Seq<char>, ErrorView> {
    if col.null() {
        Err(cannot_convert_null("String"@))
    } else {
        match col.buf {
            ColumnBuffer::Text(txt) => Ok(lossy_text(txt.bytes())),
            _ => match text_request(col, "String"@) {
                Ok(_) => replied_text(reply, "String"@),
                Err(e) => Err(e),
            },
        }
    }
}

impl<'a> FromSql<'a> for String {
    open spec fn nullable() -> bool {
        false
    }

    fn request(col: &Column) -> (r: Result<Request, Error>)
        ensures
            outcome(r) == text_request(*col, "String"@),
    {
        request_text(col, "String")
    }

    fn value(col: &'a mut Column, reply: Reply) -> (r: Result<Self, Error>)
        ensures
            *final(col) == *old(col),
            text_outcome(r) == string_value(*old(col), reply),
            !old(col).null() && old(col).buf is Text && valid_utf8(old(col).buf->Text_0.bytes())
                ==> text_outcome(r) == Ok::<Seq<char>, ErrorView>(
                decode_utf8(old(col).buf->Text_0.bytes()),
            ),
    {
        if col.is_null() {
            return Err(Error::null("String"));
        }
        match &col.buf {
            ColumnBuffer::Text(oci_str) => Ok(varchar::to_string(oci_str)),
            ColumnBuffer::Number(_)
            | ColumnBuffer::Date(_)
            | ColumnBuffer::Timestamp(_)
            | ColumnBuffer::TimestampTZ(_)
            | ColumnBuffer::TimestampLTZ(_)
            | ColumnBuffer::IntervalYM(_)
            | ColumnBuffer::IntervalDS(_)
            | ColumnBuffer::Float(_)
            | ColumnBuffer::Double(_)
            | ColumnBuffer::Rowid(_)
            | ColumnBuffer::Binary(_) => text_of(reply, "String"),
            other => Err(mismatch(other, "String")),
        }
    }
}

/// The value of a column as a `Varchar`: a copy of the text of a text
/// buffer, where the bytes are text, and for every other buffer that holds a
/// value the text of the reply. Text of more bytes than a string of the
/// call interface can hold cannot be converted.
pub open spec fn varchar_value(col: Column, reply: Reply) -> Result<Seq<char>, ErrorView> {
    if col.null() {
        Err(cannot_convert_null("Varchar"@))
    } else {
        match col.buf {
            ColumnBuffer::Text(txt) => if valid_utf8(txt.bytes()) {
                Ok(decode_utf8(txt.bytes()))
            } else {
                Err(cannot_convert("Text"@, "Varchar"@))
            },
            _ => match text_request(col, "Varchar"@) {
                Ok(_) => match replied_text(reply, "Varchar"@) {
                    Ok(text) => if encode_utf8(text).len() <= u32::MAX {
                        Ok(text)
                    } else {
                        Err(cannot_convert("Text"@, "Varchar"@))
                    },
                    Err(e) => Err(e),
                },
                Err(e) => Err(e),
            },
        }
    }
}

impl<'a> FromSql<'a> for Varchar {
    open spec fn nullable() -> bool {
        false
    }

    fn request(col: &Column) -> (r: Result<Request, Error>)
        ensures
            outcome(r) == text_request(*col, "Varchar"@),
    {
        request_text(col, "Varchar")
    }

    fn value(col: &'a mut Column, reply: Reply) -> (r: Result<Self, Error>)
        ensures
            *final(col) == *old(col),
            match varchar_value(*old(col), reply) {
                Ok(text) => r matches Ok(v) && v@ == text,
                Err(e) => r matches Err(f) && f@ == e,
            },
    {
        if col.is_null() {
            return Err(Error::null("Varchar"));
        }
        match &col.buf {
            ColumnBuffer::Text(oci_str) => Varchar::from_ocistring(oci_str),
            ColumnBuffer::Number(_)
            | ColumnBuffer::Date(_)
            | ColumnBuffer::Timestamp(_)
            | ColumnBuffer::TimestampTZ(_)
            | ColumnBuffer::TimestampLTZ(_)
            | ColumnBuffer::IntervalYM(_)
            | ColumnBuffer::IntervalDS(_)
            | ColumnBuffer::Float(_)
            | ColumnBuffer::Double(_)
            | ColumnBuffer::Rowid(_)
            | ColumnBuffer::Binary(_) => match text_of(reply, "Varchar") {
                Ok(text) => {
                    if text.as_str().as_bytes().len() > u32::MAX as usize {
                        Err(Error::conversion("Text", "Varchar"))
                    } else {
                        Varchar::from(text.as_str())
                    }
                },
                Err(e) => Err(e),
            },
            other => Err(mismatch(other, "Varchar")),
        }
    }
}

/// The value of a column as a string slice: the text of a text buffer, where
/// the bytes are text. No other buffer holds text that can be borrowed.
pub open spec fn str_value(col: Column) -> Result<Seq<char>, ErrorView> {
    if col.null() {
        Err(cannot_convert_null("&str"@))
    } else {
        match col.buf {
            ColumnBuffer::Text(txt) => if valid_utf8(txt.bytes()) {
                Ok(decode_utf8(txt.bytes()))
            } else {
                Err(cannot_convert("Text"@, "&str"@))
            },
            _ => Err(cannot_convert(col.buf.kind_name(), "&str"@)),
        }
    }
}

impl<'a> FromSql<'a> for &'a str {
    open spec fn nullable() -> bool {
        false
    }

    fn request(col: &Column) -> (r: Result<Request, Error>)
        ensures
            outcome(r) == if col.null() {
                Err(cannot_convert_null("&str"@))
            } else if col.buf is Text {
                Ok(Request::Nothing)
            } else {
                Err(cannot_convert(col.buf.kind_name(), "&str"@))
            },
    {
        if col.is_null() {
            return Err(Error::null("&str"));
        }
        match &col.buf {
            ColumnBuffer::Text(_) => Ok(Request::Nothing),
            other => Err(mismatch(other, "&str")),
        }
    }

    fn value(col: &'a mut Column, reply: Reply) -> (r: Result<Self, Error>)
        ensures
            *final(col) == *old(col),
            match str_value(*old(col)) {
                Ok(text) => r matches Ok(s) && s@ == text,
                Err(e) => r matches Err(f) && f@ == e,
            },
    {
        if col.is_null() {
            return Err(Error::null("&str"));
        }
        match &col.buf {
            ColumnBuffer::Text(oci_str) => match varchar::as_str(oci_str) {
                Some(text) => Ok(text),
                None => Err(Error::conversion("Text", "&str")),
            },
            other => Err(mismatch(other, "&str")),
        }
    }
}

/// The value of a column as a slice of bytes: the data of a binary buffer.
pub open spec fn bytes_value(col: Column) -> Result<Seq<u8>, ErrorView> {
    if col.null() {
        Err(cannot_convert_null("&[u8]"@))
    } else {
        match col.buf {
            ColumnBuffer::Binary(bin) => Ok(bin.bytes()),
            _ => Err(cannot_convert(col.buf.kind_name(), "&[u8]"@)),
        }
    }
}

impl<'a> FromSql<'a> for &'a [u8] {
    open spec fn nullable() -> bool {
        false
    }

    fn request(col: &Column) -> (r: Result<Request, Error>)
        ensures
            outcome(r) == if col.null() {
                Err(cannot_convert_null("&[u8]"@))
            } else if col.buf is Binary {
                Ok(Request::Nothing)
            } else {
                Err(cannot_convert(col.buf.kind_name(), "&[u8]"@))
            },
    {
        if col.is_null() {
            return Err(Error::null("&[u8]"));
        }
        match &col.buf {
            ColumnBuffer::Binary(_) => Ok(Request::Nothing),
            other => Err(mismatch(other, "&[u8]")),
        }
    }

    fn value(col: &'a mut Column, reply: Reply) -> (r: Result<Self, Error>)
        ensures
            *final(col) == *old(col),
            match bytes_value(*old(col)) {
                Ok(bytes) => r matches Ok(s) && s@ == bytes,
                Err(e) => r matches Err(f) && f@ == e,
            },
    {
        if col.is_null() {
            return Err(Error::null("&[u8]"));
        }
        match &col.buf {
            ColumnBuffer::Binary(oci_raw) => Ok(raw::as_bytes(oci_raw)),
            other => Err(mismatch(other, "&[u8]")),
        }
    }
}

/// The integer types that a number converts to.
pub trait Integer: Sized + Copy {
    /// The size of the type in bytes.
    spec fn bytes() -> u32;

    /// True of the types that have negative values.
    spec fn with_sign() -> bool;

    /// The number that a value of the type is.
    spec fn number(self) -> int;

    /// True of the numbers that the type has.
    spec fn holds(v: int) -> bool;

    /// The size of the type in bytes.
    fn size() -> (r: u32)
        ensures
            r == Self::bytes(),
    ;

    /// True of the types that have negative values.
    fn signed() -> (r: bool)
        ensures
            r == Self::with_sign(),
    ;

    /// The value of the type that is the number `v`, if there is one.
    fn from_int(v: i128) -> (r: Option<Self>)
        ensures
            r is Some <==> Self::holds(v as int),
            r matches Some(x) ==> x.number() == v,
    ;
}

impl Integer for i8 {
    open spec fn bytes() -> u32 {
        1
    }

    open spec fn with_sign() -> bool {
        true
    }

    open spec fn number(self) -> int {
        self as int
    }

    open spec fn holds(v: int) -> bool {
        i8::MIN <= v <= i8::MAX
    }

    fn size() -> (r: u32) {
        1
    }

    fn signed() -> (r: bool) {
        true
    }

    fn from_int(v: i128) -> (r: Option<Self>) {
        if i8::MIN as i128 <= v && v <= i8::MAX as i128 {
            Some(v as i8)
        } else {
            None
        }
    }
}

impl Integer for i16 {
    open spec fn bytes() -> u32 {
        2
    }

    open spec fn with_sign() -> bool {
        true
    }

    open spec fn number(self) -> int {
        self as int
    }

    open spec fn holds(v: int) -> bool {
        i16::MIN <= v <= i16::MAX
    }

    fn size() -> (r: u32) {
        2
    }

    fn signed() -> (r: bool) {
        true
    }

    fn from_int(v: i128) -> (r: Option<Self>) {
        if i16::MIN as i128 <= v && v <= i16::MAX as i128 {
            Some(v as i16)
        } else {
            None
        }
    }
}

impl Integer for i32 {
    open spec fn bytes() -> u32 {
        4
    }

    open spec fn with_sign() -> bool {
        true
    }

    open spec fn number(self) -> int {
        self as int
    }

    open spec fn holds(v: int) -> bool {
        i32::MIN <= v <= i32::MAX
    }

    fn size() -> (r: u32) {
        4
    }

    fn signed() -> (r: bool) {
        true
    }

    fn from_int(v: i128) -> (r: Option<Self>) {
        if i32::MIN as i128 <= v && v <= i32::MAX as i128 {
            Some(v as i32)
        } else {
            None
        }
    }
}

impl Integer for i64 {
    open spec fn bytes() -> u32 {
        8
    }

    open spec fn with_sign() -> bool {
        true
    }

    open spec fn number(self) -> int {
        self as int
    }

    open spec fn holds(v: int) -> bool {
        i64::MIN <= v <= i64::MAX
    }

    fn size() -> (r: u32) {
        8
    }

    fn signed() -> (r: bool) {
        true
    }

    fn from_int(v: i128) -> (r: Option<Self>) {
        if i64::MIN as i128 <= v && v <= i64::MAX as i128 {
            Some(v as i64)
        } else {
            None
        }
    }
}

impl Integer for isize {
    open spec fn bytes() -> u32 {
        (usize::BITS / 8) as u32
    }

    open spec fn with_sign() -> bool {
        true
    }

    open spec fn number(self) -> int {
        self as int
    }

    open spec fn holds(v: int) -> bool {
        isize::MIN <= v <= isize::MAX
    }

    fn size() -> (r: u32) {
        usize::BITS / 8
    }

    fn signed() -> (r: bool) {
        true
    }

    fn from_int(v: i128) -> (r: Option<Self>) {
        if isize::MIN as i128 <= v && v <= isize::MAX as i128 {
            Some(v as isize)
        } else {
            None
        }
    }
}

impl Integer for u8 {
    open spec fn bytes() -> u32 {
        1
    }

    open spec fn with_sign() -> bool {
        false
    }

    open spec fn number(self) -> int {
        self as int
    }

    open spec fn holds(v: int) -> bool {
        0 <= v <= u8::MAX
    }

    fn size() -> (r: u32) {
        1
    }

    fn signed() -> (r: bool) {
        false
    }

    fn from_int(v: i128) -> (r: Option<Self>) {
        if 0 <= v && v <= u8::MAX as i128 {
            Some(v as u8)
        } else {
            None
        }
    }
}

impl Integer for u16 {
    open spec fn bytes() -> u32 {
        2
    }

    open spec fn with_sign() -> bool {
        false
    }

    open spec fn number(self) -> int {
        self as int
    }

    open spec fn holds(v: int) -> bool {
        0 <= v <= u16::MAX
    }

    fn size() -> (r: u32) {
        2
    }

    fn signed() -> (r: bool) {
        false
    }

    fn from_int(v: i128) -> (r: Option<Self>) {
        if 0 <= v && v <= u16::MAX as i128 {
            Some(v as u16)
        } else {
            None
        }
    }
}

impl Integer for u32 {
    open spec fn bytes() -> u32 {
        4
    }

    open spec fn with_sign() -> bool {
        false
    }

    open spec fn number(self) -> int {
        self as int
    }

    open spec fn holds(v: int) -> bool {
        0 <= v <= u32::MAX
    }

    fn size() -> (r: u32) {
        4
    }

    fn signed() -> (r: bool) {
        false
    }

    fn from_int(v: i128) -> (r: Option<Self>) {
        if 0 <= v && v <= u32::MAX as i128 {
            Some(v as u32)
        } else {
            None
        }
    }
}

impl Integer for u64 {
    open spec fn bytes() -> u32 {
        8
    }

    open spec fn with_sign() -> bool {
        false
    }

    open spec fn number(self) -> int {
        self as int
    }

    open spec fn holds(v: int) -> bool {
        0 <= v <= u64::MAX
    }

    fn size() -> (r: u32) {
        8
    }

    fn signed() -> (r: bool) {
        false
    }

    fn from_int(v: i128) -> (r: Option<Self>) {
        if 0 <= v && v <= u64::MAX as i128 {
            Some(v as u64)
        } else {
            None
        }
    }
}

impl Integer for usize {
    open spec fn bytes() -> u32 {
        (usize::BITS / 8) as u32
    }

    open spec fn with_sign() -> bool {
        false
    }

    open spec fn number(self) -> int {
        self as int
    }

    open spec fn holds(v: int) -> bool {
        0 <= v <= usize::MAX
    }

    fn size() -> (r: u32) {
        usize::BITS / 8
    }

    fn signed() -> (r: bool) {
        false
    }

    fn from_int(v: i128) -> (r: Option<Self>) {
        if 0 <= v && v <= usize::MAX as i128 {
            Some(v as usize)
        } else {
            None
        }
    }
}

/// What has to be done to have the value of a column as an integer of
/// `size` bytes. Numbers of all three kinds and both kinds of interval
/// convert.
pub open spec fn integer_request(col: Column, size: u32, signed: bool) -> Result<
    Request,
    ErrorView,
> {
    if col.null() {
        Err(cannot_convert_null("integer"@))
    } else {
        match col.buf {
            ColumnBuffer::Number(num) => Ok(Request::NumberToInt { num, size, signed }),
            ColumnBuffer::Float(bits) => Ok(Request::FloatToInt { bits, size, signed }),
            ColumnBuffer::Double(bits) => Ok(Request::DoubleToInt { bits, size, signed }),
            ColumnBuffer::IntervalYM(interval) => Ok(
                Request::IntervalToInt { interval: interval.ptr, size, signed },
            ),
            ColumnBuffer::IntervalDS(interval) => Ok(
                Request::IntervalToInt { interval: interval.ptr, size, signed },
            ),
            _ => Err(cannot_convert(col.buf.kind_name(), "integer"@)),
        }
    }
}

/// The number that a column gives for an integer type that holds the
/// numbers of which `holds` is true: the integer of the reply, where the
/// buffer holds a number or an interval and the type has that integer.
pub open spec fn integer_value(
    col: Column,
    reply: Reply,
    holds: spec_fn(int) -> bool,
) -> Result<int, ErrorView> {
    if col.null() {
        Err(cannot_convert_null("integer"@))
    } else if integer_request(col, 0, false) is Ok {
        match reply {
            Reply::Int(v) => if holds(v as int) {
                Ok(v as int)
            } else {
                Err(cannot_convert("Int"@, "integer"@))
            },
            Reply::Failed(e) => Err(e@),
            _ => Err(cannot_convert(reply.kind_name(), "integer"@)),
        }
    } else {
        Err(cannot_convert(col.buf.kind_name(), "integer"@))
    }
}

/// Says what has to be done to have the value of a column as an integer of
/// the type `T`.
fn request_integer<T: Integer>(col: &Column) -> (r: Result<Request, Error>)
    ensures
        outcome(r) == integer_request(*col, T::bytes(), T::with_sign()),
{
    if col.is_null() {
        return Err(Error::null("integer"));
    }
    let size: u32 = T::size();
    let signed = T::signed();
    match &col.buf {
        ColumnBuffer::Number(num) => Ok(Request::NumberToInt { num: *num, size, signed }),
        ColumnBuffer::Float(bits) => Ok(Request::FloatToInt { bits: *bits, size, signed }),
        ColumnBuffer::Double(bits) => Ok(Request::DoubleToInt { bits: *bits, size, signed }),
        ColumnBuffer::IntervalYM(interval) => Ok(
            Request::IntervalToInt { interval: interval.get(), size, signed },
        ),
        ColumnBuffer::IntervalDS(interval) => Ok(
            Request::IntervalToInt { interval: interval.get(), size, signed },
        ),
        other => Err(mismatch(other, "integer")),
    }
}

/// Makes the value of a column as an integer of the type `T`.
fn value_integer<T: Integer>(col: &Column, reply: Reply) -> (r: Result<T, Error>)
    ensures
        match integer_value(*col, reply, |v: int| T::holds(v)) {
            Ok(v) => r matches Ok(x) && x.number() == v,
            Err(e) => r matches Err(f) && f@ == e,
        },
{
    if col.is_null() {
        return Err(Error::null("integer"));
    }
    match &col.buf {
        ColumnBuffer::Number(_)
        | ColumnBuffer::Float(_)
        | ColumnBuffer::Double(_)
        | ColumnBuffer::IntervalYM(_)
        | ColumnBuffer::IntervalDS(_) => match reply {
            Reply::Int(v) => match T::from_int(v) {
                Some(x) => Ok(x),
                None => Err(Error::conversion("Int", "integer")),
            },
            Reply::Failed(e) => Err(e),
            other => Err(Error::conversion(other.kind(), "integer")),
        },
        other => Err(mismatch(other, "integer")),
    }
}

impl<'a> FromSql<'a> for i8 {
    open spec fn nullable() -> bool {
        false
    }

    fn request(col: &Column) -> (r: Result<Request, Error>)
        ensures
            outcome(r) == integer_request(*col, 1, true),
    {
        request_integer::<i8>(col)
    }

    fn value(col: &'a mut Column, reply: Reply) -> (r: Result<Self, Error>)
        ensures
            *final(col) == *old(col),
            match integer_value(*old(col), reply, |v: int| i8::MIN <= v <= i8::MAX) {
                Ok(v) => r matches Ok(x) && x == v,
                Err(e) => r matches Err(f) && f@ == e,
            },
    {
        value_integer::<i8>(col, reply)
    }
}

impl<'a> FromSql<'a> for i16 {
    open spec fn nullable() -> bool {
        false
    }

    fn request(col: &Column) -> (r: Result<Request, Error>)
        ensures
            outcome(r) == integer_request(*col, 2, true),
    {
        request_integer::<i16>(col)
    }

    fn value(col: &'a mut Column, reply: Reply) -> (r: Result<Self, Error>)
        ensures
            *final(col) == *old(col),
            match integer_value(*old(col), reply, |v: int| i16::MIN <= v <= i16::MAX) {
                Ok(v) => r matches Ok(x) && x == v,
                Err(e) => r matches Err(f) && f@ == e,
            },
    {
        value_integer::<i16>(col, reply)
    }
}

impl<'a> FromSql<'a> for i32 {
    open spec fn nullable() -> bool {
        false
    }

    fn request(col: &Column) -> (r: Result<Request, Error>)
        ensures
            outcome(r) == integer_request(*col, 4, true),
    {
        request_integer::<i32>(col)
    }

    fn value(col: &'a mut Column, reply: Reply) -> (r: Result<Self, Error>)
        ensures
            *final(col) == *old(col),
            match integer_value(*old(col), reply, |v: int| i32::MIN <= v <= i32::MAX) {
                Ok(v) => r matches Ok(x) && x == v,
                Err(e) => r matches Err(f) && f@ == e,
            },
    {
        value_integer::<i32>(col, reply)
    }
}

impl<'a> FromSql<'a> for i64 {
    open spec fn nullable() -> bool {
        false
    }

    fn request(col: &Column) -> (r: Result<Request, Error>)
        ensures
            outcome(r) == integer_request(*col, 8, true),
    {
        request_integer::<i64>(col)
    }

    fn value(col: &'a mut Column, reply: Reply) -> (r: Result<Self, Error>)
        ensures
            *final(col) == *old(col),
            match integer_value(*old(col), reply, |v: int| i64::MIN <= v <= i64::MAX) {
                Ok(v) => r matches Ok(x) && x == v,
                Err(e) => r matches Err(f) && f@ == e,
            },
    {
        value_integer::<i64>(col, reply)
    }
}

impl<'a> FromSql<'a> for isize {
    open spec fn nullable() -> bool {
        false
    }

    fn request(col: &Column) -> (r: Result<Request, Error>)
        ensures
            outcome(r) == integer_request(*col, (usize::BITS / 8) as u32, true),
    {
        request_integer::<isize>(col)
    }

    fn value(col: &'a mut Column, reply: Reply) -> (r: Result<Self, Error>)
        ensures
            *final(col) == *old(col),
            match integer_value(*old(col), reply, |v: int| isize::MIN <= v <= isize::MAX) {
                Ok(v) => r matches Ok(x) && x == v,
                Err(e) => r matches Err(f) && f@ == e,
            },
    {
        value_integer::<isize>(col, reply)
    }
}

impl<'a> FromSql<'a> for u8 {
    open spec fn nullable() -> bool {
        false
    }

    fn request(col: &Column) -> (r: Result<Request, Error>)
        ensures
            outcome(r) == integer_request(*col, 1, false),
    {
        request_integer::<u8>(col)
    }

    fn value(col: &'a mut Column, reply: Reply) -> (r: Result<Self, Error>)
        ensures
            *final(col) == *old(col),
            match integer_value(*old(col), reply, |v: int| 0 <= v <= u8::MAX) {
                Ok(v) => r matches Ok(x) && x == v,
                Err(e) => r matches Err(f) && f@ == e,
            },
    {
        value_integer::<u8>(col, reply)
    }
}

impl<'a> FromSql<'a> for u16 {
    open spec fn nullable() -> bool {
        false
    }

    fn request(col: &Column) -> (r: Result<Request, Error>)
        ensures
            outcome(r) == integer_request(*col, 2, false),
    {
        request_integer::<u16>(col)
    }

    fn value(col: &'a mut Column, reply: Reply) -> (r: Result<Self, Error>)
        ensures
            *final(col) == *old(col),
            match integer_value(*old(col), reply, |v: int| 0 <= v <= u16::MAX) {
                Ok(v) => r matches Ok(x) && x == v,
                Err(e) => r matches Err(f) && f@ == e,
            },
    {
        value_integer::<u16>(col, reply)
    }
}

impl<'a> FromSql<'a> for u32 {
    open spec fn nullable() -> bool {
        false
    }

    fn request(col: &Column) -> (r: Result<Request, Error>)
        ensures
            outcome(r) == integer_request(*col, 4, false),
    {
        request_integer::<u32>(col)
    }

    fn value(col: &'a mut Column, reply: Reply) -> (r: Result<Self, Error>)
        ensures
            *final(col) == *old(col),
            match integer_value(*old(col), reply, |v: int| 0 <= v <= u32::MAX) {
                Ok(v) => r matches Ok(x) && x == v,
                Err(e) => r matches Err(f) && f@ == e,
            },
    {
        value_integer::<u32>(col, reply)
    }
}

impl<'a> FromSql<'a> for u64 {
    open spec fn nullable() -> bool {
        false
    }

    fn request(col: &Column) -> (r: Result<Request, Error>)
        ensures
            outcome(r) == integer_request(*col, 8, false),
    {
        request_integer::<u64>(col)
    }

    fn value(col: &'a mut Column, reply: Reply) -> (r: Result<Self, Error>)
        ensures
            *final(col) == *old(col),
            match integer_value(*old(col), reply, |v: int| 0 <= v <= u64::MAX) {
                Ok(v) => r matches Ok(x) && x == v,
                Err(e) => r matches Err(f) && f@ == e,
            },
    {
        value_integer::<u64>(col, reply)
    }
}

impl<'a> FromSql<'a> for usize {
    open spec fn nullable() -> bool {
        false
    }

    fn request(col: &Column) -> (r: Result<Request, Error>)
        ensures
            outcome(r) == integer_request(*col, (usize::BITS / 8) as u32, false),
    {
        request_integer::<usize>(col)
    }

    fn value(col: &'a mut Column, reply: Reply) -> (r: Result<Self, Error>)
        ensures
            *final(col) == *old(col),
            match integer_value(*old(col), reply, |v: int| 0 <= v <= usize::MAX) {
                Ok(v) => r matches Ok(x) && x == v,
                Err(e) => r matches Err(f) && f@ == e,
            },
    {
        value_integer::<usize>(col, reply)
    }
}

/// What has to be done to have the value of a column as a single precision
/// number. Numbers of all three kinds and both kinds of interval convert.
pub open spec fn float_request(col: Column) -> Result<Request, ErrorView> {
    if col.null() {
        Err(cannot_convert_null("BinaryFloat"@))
    } else {
        match col.buf {
            ColumnBuffer::Number(num) => Ok(Request::NumberToFloat { num }),
            ColumnBuffer::Float(_) => Ok(Request::Nothing),
            ColumnBuffer::Double(bits) => Ok(Request::DoubleToFloat { bits }),
            ColumnBuffer::IntervalYM(interval) => Ok(Request::IntervalToFloat { interval: interval.ptr }),
            ColumnBuffer::IntervalDS(interval) => Ok(Request::IntervalToFloat { interval: interval.ptr }),
            _ => Err(cannot_convert(col.buf.kind_name(), "BinaryFloat"@)),
        }
    }
}

/// The value of a column as a single precision number: the bits of the
/// buffer where it holds one, and else those of the reply.
pub open spec fn float_value(col: Column, reply: Reply) -> Result<BinaryFloat, ErrorView> {
    if col.null() {
        Err(cannot_convert_null("BinaryFloat"@))
    } else {
        match col.buf {
            ColumnBuffer::Float(bits) => Ok(BinaryFloat { bits }),
            _ => match float_request(col) {
                Ok(_) => replied_float(reply, "BinaryFloat"@),
                Err(e) => Err(e),
            },
        }
    }
}

impl<'a> FromSql<'a> for BinaryFloat {
    open spec fn nullable() -> bool {
        false
    }

    fn request(col: &Column) -> (r: Result<Request, Error>)
        ensures
            outcome(r) == float_request(*col),
    {
        if col.is_null() {
            return Err(Error::null("BinaryFloat"));
        }
        match &col.buf {
            ColumnBuffer::Number(num) => Ok(Request::NumberToFloat { num: *num }),
            ColumnBuffer::Float(_) => Ok(Request::Nothing),
            ColumnBuffer::Double(bits) => Ok(Request::DoubleToFloat { bits: *bits }),
            ColumnBuffer::IntervalYM(interval) => Ok(Request::IntervalToFloat { interval: interval.get() }),
            ColumnBuffer::IntervalDS(interval) => Ok(Request::IntervalToFloat { interval: interval.get() }),
            other => Err(mismatch(other, "BinaryFloat")),
        }
    }

    fn value(col: &'a mut Column, reply: Reply) -> (r: Result<Self, Error>)
        ensures
            *final(col) == *old(col),
            outcome(r) == float_value(*old(col), reply),
    {
        if col.is_null() {
            return Err(Error::null("BinaryFloat"));
        }
        match &col.buf {
            ColumnBuffer::Float(bits) => Ok(BinaryFloat { bits: *bits }),
            ColumnBuffer::Number(_)
            | ColumnBuffer::Double(_)
            | ColumnBuffer::IntervalYM(_)
            | ColumnBuffer::IntervalDS(_) => float_of(reply, "BinaryFloat"),
            other => Err(mismatch(other, "BinaryFloat")),
        }
    }
}

/// What has to be done to have the value of a column as a double precision
/// number. Numbers of all three kinds and both kinds of interval convert.
pub open spec fn double_request(col: Column) -> Result<Request, ErrorView> {
    if col.null() {
        Err(cannot_convert_null("BinaryDouble"@))
    } else {
        match col.buf {
            ColumnBuffer::Number(num) => Ok(Request::NumberToDouble { num }),
            ColumnBuffer::Float(bits) => Ok(Request::FloatToDouble { bits }),
            ColumnBuffer::Double(_) => Ok(Request::Nothing),
            ColumnBuffer::IntervalYM(interval) => Ok(Request::IntervalToDouble { interval: interval.ptr }),
            ColumnBuffer::IntervalDS(interval) => Ok(Request::IntervalToDouble { interval: interval.ptr }),
            _ => Err(cannot_convert(col.buf.kind_name(), "BinaryDouble"@)),
        }
    }
}

/// The value of a column as a double precision number: the bits of the
/// buffer where it holds one, and else those of the reply.
pub open spec fn double_value(col: Column, reply: Reply) -> Result<BinaryDouble, ErrorView> {
    if col.null() {
        Err(cannot_convert_null("BinaryDouble"@))
    } else {
        match col.buf {
            ColumnBuffer::Double(bits) => Ok(BinaryDouble { bits }),
            _ => match double_request(col) {
                Ok(_) => replied_double(reply, "BinaryDouble"@),
                Err(e) => Err(e),
            },
        }
    }
}

impl<'a> FromSql<'a> for BinaryDouble {
    open spec fn nullable() -> bool {
        false
    }

    fn request(col: &Column) -> (r: Result<Request, Error>)
        ensures
            outcome(r) == double_request(*col),
    {
        if col.is_null() {
            return Err(Error::null("BinaryDouble"));
        }
        match &col.buf {
            ColumnBuffer::Number(num) => Ok(Request::NumberToDouble { num: *num }),
            ColumnBuffer::Float(bits) => Ok(Request::FloatToDouble { bits: *bits }),
            ColumnBuffer::Double(_) => Ok(Request::Nothing),
            ColumnBuffer::IntervalYM(interval) => Ok(Request::IntervalToDouble { interval: interval.get() }),
            ColumnBuffer::IntervalDS(interval) => Ok(Request::IntervalToDouble { interval: interval.get() }),
            other => Err(mismatch(other, "BinaryDouble")),
        }
    }

    fn value(col: &'a mut Column, reply: Reply) -> (r: Result<Self, Error>)
        ensures
            *final(col) == *old(col),
            outcome(r) == double_value(*old(col), reply),
    {
        if col.is_null() {
            return Err(Error::null("BinaryDouble"));
        }
        match &col.buf {
            ColumnBuffer::Double(bits) => Ok(BinaryDouble { bits: *bits }),
            ColumnBuffer::Number(_)
            | ColumnBuffer::Float(_)
            | ColumnBuffer::IntervalYM(_)
            | ColumnBuffer::IntervalDS(_) => double_of(reply, "BinaryDouble"),
            other => Err(mismatch(other, "BinaryDouble")),
        }
    }
}

/// What has to be done to have the value of a column as a NUMBER. Numbers of
/// all three kinds and both kinds of interval convert.
pub open spec fn number_request(col: Column) -> Result<Request, ErrorView> {
    if col.null() {
        Err(cannot_convert_null("Number"@))
    } else {
        match col.buf {
            ColumnBuffer::Number(_) => Ok(Request::Nothing),
            ColumnBuffer::Float(bits) => Ok(Request::FloatToNumber { bits }),
            ColumnBuffer::Double(bits) => Ok(Request::DoubleToNumber { bits }),
            ColumnBuffer::IntervalYM(interval) => Ok(Request::IntervalToNumber { interval: interval.ptr }),
            ColumnBuffer::IntervalDS(interval) => Ok(Request::IntervalToNumber { interval: interval.ptr }),
            _ => Err(cannot_convert(col.buf.kind_name(), "Number"@)),
        }
    }
}

/// The value of a column as a NUMBER: the number of the buffer where it
/// holds one, and else that of the reply.
pub open spec fn number_value(col: Column, reply: Reply) -> Result<Number, ErrorView> {
    if col.null() {
        Err(cannot_convert_null("Number"@))
    } else {
        match col.buf {
            ColumnBuffer::Number(num) => Ok(Number { num }),
            _ => match number_request(col) {
                Ok(_) => replied_number(reply, "Number"@),
                Err(e) => Err(e),
            },
        }
    }
}

impl<'a> FromSql<'a> for Number {
    open spec fn nullable() -> bool {
        false
    }

    fn request(col: &Column) -> (r: Result<Request, Error>)
        ensures
            outcome(r) == number_request(*col),
    {
        if col.is_null() {
            return Err(Error::null("Number"));
        }
        match &col.buf {
            ColumnBuffer::Number(_) => Ok(Request::Nothing),
            ColumnBuffer::Float(bits) => Ok(Request::FloatToNumber { bits: *bits }),
            ColumnBuffer::Double(bits) => Ok(Request::DoubleToNumber { bits: *bits }),
            ColumnBuffer::IntervalYM(interval) => Ok(Request::IntervalToNumber { interval: interval.get() }),
            ColumnBuffer::IntervalDS(interval) => Ok(Request::IntervalToNumber { interval: interval.get() }),
            other => Err(mismatch(other, "Number")),
        }
    }

    fn value(col: &'a mut Column, reply: Reply) -> (r: Result<Self, Error>)
        ensures
            *final(col) == *old(col),
            outcome(r) == number_value(*old(col), reply),
    {
        if col.is_null() {
            return Err(Error::null("Number"));
        }
        match &col.buf {
            ColumnBuffer::Number(num) => Ok(number::from_number(num)),
            ColumnBuffer::Float(_)
            | ColumnBuffer::Double(_)
            | ColumnBuffer::IntervalYM(_)
            | ColumnBuffer::IntervalDS(_) => number_of(reply, "Number"),
            other => Err(mismatch(other, "Number")),
        }
    }
}

/// The value of a column as a DATE: the date of a date buffer.
pub open spec fn date_value(col: Column) -> Result<Date, ErrorView> {
    if col.null() {
        Err(cannot_convert_null("Date"@))
    } else {
        match col.buf {
            ColumnBuffer::Date(date) => Ok(Date { date }),
            _ => Err(cannot_convert(col.buf.kind_name(), "Date"@)),
        }
    }
}

impl<'a> FromSql<'a> for Date {
    open spec fn nullable() -> bool {
        false
    }

    fn request(col: &Column) -> (r: Result<Request, Error>)
        ensures
            outcome(r) == if col.null() {
                Err(cannot_convert_null("Date"@))
            } else if col.buf is Date {
                Ok(Request::Nothing)
            } else {
                Err(cannot_convert(col.buf.kind_name(), "Date"@))
            },
    {
        if col.is_null() {
            return Err(Error::null("Date"));
        }
        match &col.buf {
            ColumnBuffer::Date(_) => Ok(Request::Nothing),
            other => Err(mismatch(other, "Date")),
        }
    }

    fn value(col: &'a mut Column, reply: Reply) -> (r: Result<Self, Error>)
        ensures
            *final(col) == *old(col),
            outcome(r) == date_value(*old(col)),
    {
        if col.is_null() {
            return Err(Error::null("Date"));
        }
        match &col.buf {
            ColumnBuffer::Date(oci_date) => Ok(date::from_date(oci_date)),
            other => Err(mismatch(other, "Date")),
        }
    }
}

/// What has to be done to have the value of a column as a timestamp of the
/// descriptor type `dtype`, for the type `wanted`: a copy where the buffer
/// holds a timestamp of that type, and a conversion where it holds one of
/// another.
pub open spec fn timestamp_request(col: Column, dtype: u32, wanted: Seq<char>) -> Result<
    Request,
    ErrorView,
> {
    if col.null() {
        Err(cannot_convert_null(wanted))
    } else {
        match col.buf {
            ColumnBuffer::Timestamp(ts) => Ok(
                if dtype == oci::OCI_DTYPE_TIMESTAMP {
                    Request::Copy { src: ts.ptr, dtype }
                } else {
                    Request::ConvertTimestamp { src: ts.ptr, dtype }
                },
            ),
            ColumnBuffer::TimestampTZ(ts) => Ok(
                if dtype == oci::OCI_DTYPE_TIMESTAMP_TZ {
                    Request::Copy { src: ts.ptr, dtype }
                } else {
                    Request::ConvertTimestamp { src: ts.ptr, dtype }
                },
            ),
            ColumnBuffer::TimestampLTZ(ts) => Ok(
                if dtype == oci::OCI_DTYPE_TIMESTAMP_LTZ {
                    Request::Copy { src: ts.ptr, dtype }
                } else {
                    Request::ConvertTimestamp { src: ts.ptr, dtype }
                },
            ),
            _ => Err(cannot_convert(col.buf.kind_name(), wanted)),
        }
    }
}

/// The descriptor of the value of a column as a timestamp, for the type
/// `wanted`: the one that the reply brings, where the buffer holds a
/// timestamp of any type.
pub open spec fn timestamp_value(col: Column, reply: Reply, wanted: Seq<char>) -> Result<
    Descriptor,
    ErrorView,
> {
    if col.null() {
        Err(cannot_convert_null(wanted))
    } else if col.buf is Timestamp || col.buf is TimestampTZ || col.buf is TimestampLTZ {
        replied_copy(reply, wanted)
    } else {
        Err(cannot_convert(col.buf.kind_name(), wanted))
    }
}

/// Says what has to be done to have the value of a column as a timestamp of
/// the descriptor type `dtype`.
fn request_timestamp(col: &Column, dtype: u32, wanted: &str) -> (r: Result<Request, Error>)
    ensures
        outcome(r) == timestamp_request(*col, dtype, wanted@),
{
    if col.is_null() {
        return Err(Error::null(wanted));
    }
    let (src, own): (u64, u32) = match &col.buf {
        ColumnBuffer::Timestamp(ts) => (ts.get(), oci::OCI_DTYPE_TIMESTAMP),
        ColumnBuffer::TimestampTZ(ts) => (ts.get(), oci::OCI_DTYPE_TIMESTAMP_TZ),
        ColumnBuffer::TimestampLTZ(ts) => (ts.get(), oci::OCI_DTYPE_TIMESTAMP_LTZ),
        other => {
            return Err(mismatch(other, wanted));
        },
    };
    if own == dtype {
        Ok(Request::Copy { src, dtype })
    } else {
        Ok(Request::ConvertTimestamp { src, dtype })
    }
}

/// Makes the descriptor of the value of a column as a timestamp.
fn value_timestamp(col: &Column, reply: Reply, wanted: &str) -> (r: Result<Descriptor, Error>)
    ensures
        outcome(r) == timestamp_value(*col, reply, wanted@),
{
    if col.is_null() {
        return Err(Error::null(wanted));
    }
    match &col.buf {
        ColumnBuffer::Timestamp(_) | ColumnBuffer::TimestampTZ(_) | ColumnBuffer::TimestampLTZ(
            _,
        ) => copy_of(reply, wanted),
        other => Err(mismatch(other, wanted)),
    }
}

impl<'a> FromSql<'a> for Timestamp {
    open spec fn nullable() -> bool {
        false
    }

    fn request(col: &Column) -> (r: Result<Request, Error>)
        ensures
            outcome(r) == timestamp_request(*col, oci::OCI_DTYPE_TIMESTAMP, "Timestamp"@),
    {
        request_timestamp(col, oci::OCI_DTYPE_TIMESTAMP, "Timestamp")
    }

    fn value(col: &'a mut Column, reply: Reply) -> (r: Result<Self, Error>)
        ensures
            *final(col) == *old(col),
            match timestamp_value(*old(col), reply, "Timestamp"@) {
                Ok(desc) => r == Ok::<Self, Error>(Timestamp(desc)),
                Err(e) => r matches Err(f) && f@ == e,
            },
    {
        match value_timestamp(col, reply, "Timestamp") {
            Ok(desc) => Ok(Timestamp(desc)),
            Err(e) => Err(e),
        }
    }
}

impl<'a> FromSql<'a> for TimestampTZ {
    open spec fn nullable() -> bool {
        false
    }

    fn request(col: &Column) -> (r: Result<Request, Error>)
        ensures
            outcome(r) == timestamp_request(*col, oci::OCI_DTYPE_TIMESTAMP_TZ, "TimestampTZ"@),
    {
        request_timestamp(col, oci::OCI_DTYPE_TIMESTAMP_TZ, "TimestampTZ")
    }

    fn value(col: &'a mut Column, reply: Reply) -> (r: Result<Self, Error>)
        ensures
            *final(col) == *old(col),
            match timestamp_value(*old(col), reply, "TimestampTZ"@) {
                Ok(desc) => r == Ok::<Self, Error>(TimestampTZ(desc)),
                Err(e) => r matches Err(f) && f@ == e,
            },
    {
        match value_timestamp(col, reply, "TimestampTZ") {
            Ok(desc) => Ok(TimestampTZ(desc)),
            Err(e) => Err(e),
        }
    }
}

impl<'a> FromSql<'a> for TimestampLTZ {
    open spec fn nullable() -> bool {
        false
    }

    fn request(col: &Column) -> (r: Result<Request, Error>)
        ensures
            outcome(r) == timestamp_request(*col, oci::OCI_DTYPE_TIMESTAMP_LTZ, "TimestampLTZ"@),
    {
        request_timestamp(col, oci::OCI_DTYPE_TIMESTAMP_LTZ, "TimestampLTZ")
    }

    fn value(col: &'a mut Column, reply: Reply) -> (r: Result<Self, Error>)
        ensures
            *final(col) == *old(col),
            match timestamp_value(*old(col), reply, "TimestampLTZ"@) {
                Ok(desc) => r == Ok::<Self, Error>(TimestampLTZ(desc)),
                Err(e) => r matches Err(f) && f@ == e,
            },
    {
        match value_timestamp(col, reply, "TimestampLTZ") {
            Ok(desc) => Ok(TimestampLTZ(desc)),
            Err(e) => Err(e),
        }
    }
}

/// The descriptor of the value of a column as an interval from years to
/// months: the one that the reply brings, where the buffer holds such an
/// interval.
pub open spec fn interval_ym_value(col: Column, reply: Reply) -> Result<Descriptor, ErrorView> {
    if col.null() {
        Err(cannot_convert_null("IntervalYM"@))
    } else if col.buf is IntervalYM {
        replied_copy(reply, "IntervalYM"@)
    } else {
        Err(cannot_convert(col.buf.kind_name(), "IntervalYM"@))
    }
}

impl<'a> FromSql<'a> for IntervalYM {
    open spec fn nullable() -> bool {
        false
    }

    fn request(col: &Column) -> (r: Result<Request, Error>)
        ensures
            outcome(r) == if col.null() {
                Err(cannot_convert_null("IntervalYM"@))
            } else {
                match col.buf {
                    ColumnBuffer::IntervalYM(interval) => Ok(
                        Request::Copy { src: interval.ptr, dtype: oci::OCI_DTYPE_INTERVAL_YM },
                    ),
                    _ => Err(cannot_convert(col.buf.kind_name(), "IntervalYM"@)),
                }
            },
    {
        if col.is_null() {
            return Err(Error::null("IntervalYM"));
        }
        match &col.buf {
            ColumnBuffer::IntervalYM(interval) => Ok(
                Request::Copy { src: interval.get(), dtype: oci::OCI_DTYPE_INTERVAL_YM },
            ),
            other => Err(mismatch(other, "IntervalYM")),
        }
    }

    fn value(col: &'a mut Column, reply: Reply) -> (r: Result<Self, Error>)
        ensures
            *final(col) == *old(col),
            match interval_ym_value(*old(col), reply) {
                Ok(desc) => r == Ok::<Self, Error>(IntervalYM(desc)),
                Err(e) => r matches Err(f) && f@ == e,
            },
    {
        if col.is_null() {
            return Err(Error::null("IntervalYM"));
        }
        match &col.buf {
            ColumnBuffer::IntervalYM(_) => match copy_of(reply, "IntervalYM") {
                Ok(desc) => Ok(IntervalYM(desc)),
                Err(e) => Err(e),
            },
            other => Err(mismatch(other, "IntervalYM")),
        }
    }
}

/// The descriptor of the value of a column as an interval from days to
/// seconds: the one that the reply brings, where the buffer holds such an
/// interval.
pub open spec fn interval_ds_value(col: Column, reply: Reply) -> Result<Descriptor, ErrorView> {
    if col.null() {
        Err(cannot_convert_null("IntervalDS"@))
    } else if col.buf is IntervalDS {
        replied_copy(reply, "IntervalDS"@)
    } else {
        Err(cannot_convert(col.buf.kind_name(), "IntervalDS"@))
    }
}

impl<'a> FromSql<'a> for IntervalDS {
    open spec fn nullable() -> bool {
        false
    }

    fn request(col: &Column) -> (r: Result<Request, Error>)
        ensures
            outcome(r) == if col.null() {
                Err(cannot_convert_null("IntervalDS"@))
            } else {
                match col.buf {
                    ColumnBuffer::IntervalDS(interval) => Ok(
                        Request::Copy { src: interval.ptr, dtype: oci::OCI_DTYPE_INTERVAL_DS },
                    ),
                    _ => Err(cannot_convert(col.buf.kind_name(), "IntervalDS"@)),
                }
            },
    {
        if col.is_null() {
            return Err(Error::null("IntervalDS"));
        }
        match &col.buf {
            ColumnBuffer::IntervalDS(interval) => Ok(
                Request::Copy { src: interval.get(), dtype: oci::OCI_DTYPE_INTERVAL_DS },
            ),
            other => Err(mismatch(other, "IntervalDS")),
        }
    }

    fn value(col: &'a mut Column, reply: Reply) -> (r: Result<Self, Error>)
        ensures
            *final(col) == *old(col),
            match interval_ds_value(*old(col), reply) {
                Ok(desc) => r == Ok::<Self, Error>(IntervalDS(desc)),
                Err(e) => r matches Err(f) && f@ == e,
            },
    {
        if col.is_null() {
            return Err(Error::null("IntervalDS"));
        }
        match &col.buf {
            ColumnBuffer::IntervalDS(_) => match copy_of(reply, "IntervalDS") {
                Ok(desc) => Ok(IntervalDS(desc)),
                Err(e) => Err(e),
            },
            other => Err(mismatch(other, "IntervalDS")),
        }
    }
}

/// What has to be done before the descriptor `desc` of a column can be
/// handed out: the allocation of the descriptor that takes its place. A
/// descriptor that holds nothing was handed out before.
pub open spec fn take_request(desc: Descriptor, request: Request) -> Result<Request, ErrorView> {
    if desc.init {
        Ok(request)
    } else {
        Err(already_consumed())
    }
}

/// What handing out the descriptor `desc` of a column gives, and what it
/// leaves in the column: the descriptor goes to the caller and the one that
/// the reply brings, with nothing in it, takes its place. A descriptor that
/// holds nothing was handed out before; it stays, as it does where the reply
/// brings none.
pub open spec fn taken(desc: Descriptor, reply: Reply, wanted: Seq<char>) -> (
    Result<Descriptor, ErrorView>,
    Descriptor,
) {
    if !desc.init {
        (Err(already_consumed()), desc)
    } else {
        match reply {
            Reply::Descriptor(ptr) => (Ok(desc), Descriptor { ptr, init: false }),
            Reply::Failed(e) => (Err(e@), desc),
            _ => (Err(cannot_convert(reply.kind_name(), wanted)), desc),
        }
    }
}

/// Hands out the descriptor `desc` of a column and leaves the one of the
/// reply in its place.
fn take(desc: &mut Descriptor, reply: Reply, wanted: &str) -> (r: Result<Descriptor, Error>)
    ensures
        (outcome(r), *final(desc)) == taken(*old(desc), reply, wanted@),
{
    if !desc.is_initialized() {
        return Err(Error::new("already consumed"));
    }
    match reply {
        Reply::Descriptor(ptr) => match desc.take(ptr) {
            Some(held) => Ok(held),
            None => Err(Error::new("already consumed")),
        },
        Reply::Failed(e) => Err(e),
        other => Err(Error::conversion(other.kind(), wanted)),
    }
}

/// Says what has to be done before the descriptor can be handed out.
fn request_take(desc: &Descriptor, request: Request) -> (r: Result<Request, Error>)
    ensures
        outcome(r) == take_request(*desc, request),
{
    if desc.is_initialized() {
        Ok(request)
    } else {
        Err(Error::new("already consumed"))
    }
}

/// What has to be done to have the value of a column as a row identifier.
pub open spec fn rowid_request(col: Column) -> Result<Request, ErrorView> {
    if col.null() {
        Err(cannot_convert_null("RowID"@))
    } else {
        match col.buf {
            ColumnBuffer::Rowid(desc) => take_request(desc, Request::NewDescriptor { dtype: oci::OCI_DTYPE_ROWID }),
            _ => Err(cannot_convert(col.buf.kind_name(), "RowID"@)),
        }
    }
}

/// The value of a column as a row identifier, and the buffer that the conversion
/// leaves.
pub open spec fn rowid_value(col: Column, reply: Reply) -> (Result<RowID, ErrorView>, ColumnBuffer) {
    if col.null() {
        (Err(cannot_convert_null("RowID"@)), col.buf)
    } else {
        match col.buf {
            ColumnBuffer::Rowid(held) => match taken(held, reply, "RowID"@) {
                (Ok(desc), left) => (Ok(RowID(desc)), ColumnBuffer::Rowid(left)),
                (Err(e), left) => (Err(e), ColumnBuffer::Rowid(left)),
            },
            _ => (Err(cannot_convert(col.buf.kind_name(), "RowID"@)), col.buf),
        }
    }
}

impl<'a> FromSql<'a> for RowID {
    open spec fn nullable() -> bool {
        false
    }

    fn request(col: &Column) -> (r: Result<Request, Error>)
        ensures
            outcome(r) == rowid_request(*col),
    {
        if col.is_null() {
            return Err(Error::null("RowID"));
        }
        match &col.buf {
            ColumnBuffer::Rowid(desc) => request_take(desc, Request::NewDescriptor { dtype: oci::OCI_DTYPE_ROWID }),
            other => Err(mismatch(other, "RowID")),
        }
    }

    fn value(col: &'a mut Column, reply: Reply) -> (r: Result<Self, Error>)
        ensures
            (outcome(r), final(col).buf) == rowid_value(*old(col), reply),
    {
        if col.is_null() {
            return Err(Error::null("RowID"));
        }
        match &mut col.buf {
            ColumnBuffer::Rowid(held) => match take(held, reply, "RowID") {
                Ok(desc) => Ok(RowID(desc)),
                Err(e) => Err(e),
            },
            other => Err(mismatch(other, "RowID")),
        }
    }
}

/// What has to be done to have the value of a column as a cursor.
pub open spec fn cursor_request(col: Column) -> Result<Request, ErrorView> {
    if col.null() {
        Err(cannot_convert_null("Cursor"@))
    } else {
        match col.buf {
            ColumnBuffer::Cursor(desc) => take_request(desc, Request::NewHandle { htype: oci::OCI_HTYPE_STMT }),
            _ => Err(cannot_convert(col.buf.kind_name(), "Cursor"@)),
        }
    }
}

/// The value of a column as a cursor, and the buffer that the conversion
/// leaves.
pub open spec fn cursor_value(col: Column, reply: Reply) -> (Result<Cursor, ErrorView>, ColumnBuffer) {
    if col.null() {
        (Err(cannot_convert_null("Cursor"@)), col.buf)
    } else {
        match col.buf {
            ColumnBuffer::Cursor(held) => match taken(held, reply, "Cursor"@) {
                (Ok(desc), left) => (Ok(Cursor(desc)), ColumnBuffer::Cursor(left)),
                (Err(e), left) => (Err(e), ColumnBuffer::Cursor(left)),
            },
            _ => (Err(cannot_convert(col.buf.kind_name(), "Cursor"@)), col.buf),
        }
    }
}

impl<'a> FromSql<'a> for Cursor {
    open spec fn nullable() -> bool {
        false
    }

    fn request(col: &Column) -> (r: Result<Request, Error>)
        ensures
            outcome(r) == cursor_request(*col),
    {
        if col.is_null() {
            return Err(Error::null("Cursor"));
        }
        match &col.buf {
            ColumnBuffer::Cursor(desc) => request_take(desc, Request::NewHandle { htype: oci::OCI_HTYPE_STMT }),
            other => Err(mismatch(other, "Cursor")),
        }
    }

    fn value(col: &'a mut Column, reply: Reply) -> (r: Result<Self, Error>)
        ensures
            (outcome(r), final(col).buf) == cursor_value(*old(col), reply),
    {
        if col.is_null() {
            return Err(Error::null("Cursor"));
        }
        match &mut col.buf {
            ColumnBuffer::Cursor(held) => match take(held, reply, "Cursor") {
                Ok(desc) => Ok(Cursor::from_handle(desc)),
                Err(e) => Err(e),
            },
            other => Err(mismatch(other, "Cursor")),
        }
    }
}

/// What has to be done to have the value of a column as a character large object.
pub open spec fn clob_request(col: Column) -> Result<Request, ErrorView> {
    if col.null() {
        Err(cannot_convert_null("CLOB"@))
    } else {
        match col.buf {
            ColumnBuffer::CLOB(desc) => take_request(desc, Request::NewDescriptor { dtype: oci::OCI_DTYPE_LOB }),
            _ => Err(cannot_convert(col.buf.kind_name(), "CLOB"@)),
        }
    }
}

/// The value of a column as a character large object, and the buffer that the conversion
/// leaves.
pub open spec fn clob_value(col: Column, reply: Reply) -> (Result<CLOB, ErrorView>, ColumnBuffer) {
    if col.null() {
        (Err(cannot_convert_null("CLOB"@)), col.buf)
    } else {
        match col.buf {
            ColumnBuffer::CLOB(held) => match taken(held, reply, "CLOB"@) {
                (Ok(desc), left) => (Ok(CLOB(desc)), ColumnBuffer::CLOB(left)),
                (Err(e), left) => (Err(e), ColumnBuffer::CLOB(left)),
            },
            _ => (Err(cannot_convert(col.buf.kind_name(), "CLOB"@)), col.buf),
        }
    }
}

impl<'a> FromSql<'a> for CLOB {
    open spec fn nullable() -> bool {
        false
    }

    fn request(col: &Column) -> (r: Result<Request, Error>)
        ensures
            outcome(r) == clob_request(*col),
    {
        if col.is_null() {
            return Err(Error::null("CLOB"));
        }
        match &col.buf {
            ColumnBuffer::CLOB(desc) => request_take(desc, Request::NewDescriptor { dtype: oci::OCI_DTYPE_LOB }),
            other => Err(mismatch(other, "CLOB")),
        }
    }

    fn value(col: &'a mut Column, reply: Reply) -> (r: Result<Self, Error>)
        ensures
            (outcome(r), final(col).buf) == clob_value(*old(col), reply),
    {
        if col.is_null() {
            return Err(Error::null("CLOB"));
        }
        match &mut col.buf {
            ColumnBuffer::CLOB(held) => match take(held, reply, "CLOB") {
                Ok(desc) => Ok(CLOB(desc)),
                Err(e) => Err(e),
            },
            other => Err(mismatch(other, "CLOB")),
        }
    }
}

/// What has to be done to have the value of a column as a binary large object.
pub open spec fn blob_request(col: Column) -> Result<Request, ErrorView> {
    if col.null() {
        Err(cannot_convert_null("BLOB"@))
    } else {
        match col.buf {
            ColumnBuffer::BLOB(desc) => take_request(desc, Request::NewDescriptor { dtype: oci::OCI_DTYPE_LOB }),
            _ => Err(cannot_convert(col.buf.kind_name(), "BLOB"@)),
        }
    }
}

/// The value of a column as a binary large object, and the buffer that the conversion
/// leaves.
pub open spec fn blob_value(col: Column, reply: Reply) -> (Result<BLOB, ErrorView>, ColumnBuffer) {
    if col.null() {
        (Err(cannot_convert_null("BLOB"@)), col.buf)
    } else {
        match col.buf {
            ColumnBuffer::BLOB(held) => match taken(held, reply, "BLOB"@) {
                (Ok(desc), left) => (Ok(BLOB(desc)), ColumnBuffer::BLOB(left)),
                (Err(e), left) => (Err(e), ColumnBuffer::BLOB(left)),
            },
            _ => (Err(cannot_convert(col.buf.kind_name(), "BLOB"@)), col.buf),
        }
    }
}

impl<'a> FromSql<'a> for BLOB {
    open spec fn nullable() -> bool {
        false
    }

    fn request(col: &Column) -> (r: Result<Request, Error>)
        ensures
            outcome(r) == blob_request(*col),
    {
        if col.is_null() {
            return Err(Error::null("BLOB"));
        }
        match &col.buf {
            ColumnBuffer::BLOB(desc) => request_take(desc, Request::NewDescriptor { dtype: oci::OCI_DTYPE_LOB }),
            other => Err(mismatch(other, "BLOB")),
        }
    }

    fn value(col: &'a mut Column, reply: Reply) -> (r: Result<Self, Error>)
        ensures
            (outcome(r), final(col).buf) == blob_value(*old(col), reply),
    {
        if col.is_null() {
            return Err(Error::null("BLOB"));
        }
        match &mut col.buf {
            ColumnBuffer::BLOB(held) => match take(held, reply, "BLOB") {
                Ok(desc) => Ok(BLOB(desc)),
                Err(e) => Err(e),
            },
            other => Err(mismatch(other, "BLOB")),
        }
    }
}

/// What has to be done to have the value of a column as a binary file.
pub open spec fn bfile_request(col: Column) -> Result<Request, ErrorView> {
    if col.null() {
        Err(cannot_convert_null("BFile"@))
    } else {
        match col.buf {
            ColumnBuffer::BFile(desc) => take_request(desc, Request::NewDescriptor { dtype: oci::OCI_DTYPE_FILE }),
            _ => Err(cannot_convert(col.buf.kind_name(), "BFile"@)),
        }
    }
}

/// The value of a column as a binary file, and the buffer that the conversion
/// leaves.
pub open spec fn bfile_value(col: Column, reply: Reply) -> (Result<BFile, ErrorView>, ColumnBuffer) {
    if col.null() {
        (Err(cannot_convert_null("BFile"@)), col.buf)
    } else {
        match col.buf {
            ColumnBuffer::BFile(held) => match taken(held, reply, "BFile"@) {
                (Ok(desc), left) => (Ok(BFile(desc)), ColumnBuffer::BFile(left)),
                (Err(e), left) => (Err(e), ColumnBuffer::BFile(left)),
            },
            _ => (Err(cannot_convert(col.buf.kind_name(), "BFile"@)), col.buf),
        }
    }
}

impl<'a> FromSql<'a> for BFile {
    open spec fn nullable() -> bool {
        false
    }

    fn request(col: &Column) -> (r: Result<Request, Error>)
        ensures
            outcome(r) == bfile_request(*col),
    {
        if col.is_null() {
            return Err(Error::null("BFile"));
        }
        match &col.buf {
            ColumnBuffer::BFile(desc) => request_take(desc, Request::NewDescriptor { dtype: oci::OCI_DTYPE_FILE }),
            other => Err(mismatch(other, "BFile")),
        }
    }

    fn value(col: &'a mut Column, reply: Reply) -> (r: Result<Self, Error>)
        ensures
            (outcome(r), final(col).buf) == bfile_value(*old(col), reply),
    {
        if col.is_null() {
            return Err(Error::null("BFile"));
        }
        match &mut col.buf {
            ColumnBuffer::BFile(held) => match take(held, reply, "BFile") {
                Ok(desc) => Ok(BFile(desc)),
                Err(e) => Err(e),
            },
            other => Err(mismatch(other, "BFile")),
        }
    }
}

/// A descriptor that was handed out cannot be had again: the first read of a
/// descriptor that holds a value gives it to the caller, and every read
/// after it, whatever the reply brings, says that it was consumed and leaves
/// what is there.
pub proof fn lemma_taken_once(desc: Descriptor, ptr: u64, second: Reply, wanted: Seq<char>)
    requires
        desc.init,
    ensures
        taken(desc, Reply::Descriptor(ptr), wanted).0 == Ok::<Descriptor, ErrorView>(desc),
        taken(taken(desc, Reply::Descriptor(ptr), wanted).1, second, wanted).0 == Err::<
            Descriptor,
            ErrorView,
        >(already_consumed()),
        taken(taken(desc, Reply::Descriptor(ptr), wanted).1, second, wanted).1 == taken(
            desc,
            Reply::Descriptor(ptr),
            wanted,
        ).1,
{
}

/// The column `col` with the buffer `buf`.
pub open spec fn with_buffer(col: Column, buf: ColumnBuffer) -> Column {
    Column { buf, ..col }
}

/// Every value that stands for something on the server is read once: a large
/// object of each kind, a row identifier and a cursor. The first read of a
/// column that holds one succeeds, and a second read of the column as it
/// then is fails because the value was consumed.
pub proof fn lemma_read_once(col: Column, ptr: u64, second: Reply)
    requires
        !col.null(),
        col.buf.descriptor() matches Some(desc) && desc.init,
    ensures
        col.buf is Rowid ==> rowid_value(col, Reply::Descriptor(ptr)).0 is Ok && rowid_value(
            with_buffer(col, rowid_value(col, Reply::Descriptor(ptr)).1),
            second,
        ).0 == Err::<RowID, ErrorView>(already_consumed()),
        col.buf is Cursor ==> cursor_value(col, Reply::Descriptor(ptr)).0 is Ok && cursor_value(
            with_buffer(col, cursor_value(col, Reply::Descriptor(ptr)).1),
            second,
        ).0 == Err::<Cursor, ErrorView>(already_consumed()),
        col.buf is CLOB ==> clob_value(col, Reply::Descriptor(ptr)).0 is Ok && clob_value(
            with_buffer(col, clob_value(col, Reply::Descriptor(ptr)).1),
            second,
        ).0 == Err::<CLOB, ErrorView>(already_consumed()),
        col.buf is BLOB ==> blob_value(col, Reply::Descriptor(ptr)).0 is Ok && blob_value(
            with_buffer(col, blob_value(col, Reply::Descriptor(ptr)).1),
            second,
        ).0 == Err::<BLOB, ErrorView>(already_consumed()),
        col.buf is BFile ==> bfile_value(col, Reply::Descriptor(ptr)).0 is Ok && bfile_value(
            with_buffer(col, bfile_value(col, Reply::Descriptor(ptr)).1),
            second,
        ).0 == Err::<BFile, ErrorView>(already_consumed()),
{
}

/// A NULL has no value of a type that has no NULL: whatever the buffer of
/// the column holds and whatever the reply brings, the conversion fails, and
/// the error says that a NULL was found.
pub proof fn lemma_null_has_no_value(col: Column, reply: Reply)
    requires
        col.null(),
    ensures
        string_value(col, reply) == Err::<Seq<char>, ErrorView>(cannot_convert_null("String"@)),
        varchar_value(col, reply) == Err::<Seq<char>, ErrorView>(cannot_convert_null("Varchar"@)),
        str_value(col) == Err::<Seq<char>, ErrorView>(cannot_convert_null("&str"@)),
        bytes_value(col) == Err::<Seq<u8>, ErrorView>(cannot_convert_null("&[u8]"@)),
        forall|holds: spec_fn(int) -> bool| #[trigger]
            integer_value(col, reply, holds) == Err::<int, ErrorView>(
                cannot_convert_null("integer"@),
            ),
        float_value(col, reply) == Err::<BinaryFloat, ErrorView>(
            cannot_convert_null("BinaryFloat"@),
        ),
        double_value(col, reply) == Err::<BinaryDouble, ErrorView>(
            cannot_convert_null("BinaryDouble"@),
        ),
        number_value(col, reply) == Err::<Number, ErrorView>(cannot_convert_null("Number"@)),
        date_value(col) == Err::<Date, ErrorView>(cannot_convert_null("Date"@)),
        forall|wanted: Seq<char>| #[trigger]
            timestamp_value(col, reply, wanted) == Err::<Descriptor, ErrorView>(
                cannot_convert_null(wanted),
            ),
        interval_ym_value(col, reply) == Err::<Descriptor, ErrorView>(
            cannot_convert_null("IntervalYM"@),
        ),
        interval_ds_value(col, reply) == Err::<Descriptor, ErrorView>(
            cannot_convert_null("IntervalDS"@),
        ),
        rowid_value(col, reply) == (Err::<RowID, ErrorView>(cannot_convert_null("RowID"@)), col.buf),
        cursor_value(col, reply) == (
            Err::<Cursor, ErrorView>(cannot_convert_null("Cursor"@)),
            col.buf,
        ),
        clob_value(col, reply) == (Err::<CLOB, ErrorView>(cannot_convert_null("CLOB"@)), col.buf),
        blob_value(col, reply) == (Err::<BLOB, ErrorView>(cannot_convert_null("BLOB"@)), col.buf),
        bfile_value(col, reply) == (Err::<BFile, ErrorView>(cannot_convert_null("BFile"@)), col.buf),
{
}

/// A value that the library holds in full comes back as it went: where a
/// column has taken a date, a number, a binary float or double, or binary
/// data that fits its memory, reading the column as the type of that value
/// gives the value that was fetched.
pub proof fn lemma_fetched_value(before: Column, value: Fetched, after: Column, reply: Reply)
    requires
        before.buf.accepts(value),
        Column::fetched(before, value, after),
    ensures
        value matches Fetched::Date(date) ==> date_value(after) == Ok::<Date, ErrorView>(
            Date { date },
        ),
        value matches Fetched::Number(num) ==> number_value(after, reply) == Ok::<
            Number,
            ErrorView,
        >(Number { num }),
        value matches Fetched::Float(bits) ==> float_value(after, reply) == Ok::<
            BinaryFloat,
            ErrorView,
        >(BinaryFloat { bits }),
        value matches Fetched::Double(bits) ==> double_value(after, reply) == Ok::<
            BinaryDouble,
            ErrorView,
        >(BinaryDouble { bits }),
        value matches Fetched::Bytes(data) ==> (before.buf matches ColumnBuffer::Binary(bin)
            && data@.len() <= bin.allocated() ==> bytes_value(after) == Ok::<
            Seq<u8>,
            ErrorView,
        >(data@)),
{
    if let Fetched::Bytes(data) = value {
        assert(data@.take(data@.len() as int) == data@);
    }
}

/// A date that was read from a column and is bound to a statement goes out
/// as the date that the column held: in the wire type of dates, with the
/// value that came in. A column that takes that value reads as the same
/// date again.
pub proof fn lemma_date_round_trip(col: Column, echo: Column, after: Column)
    requires
        date_value(col) is Ok,
        echo.buf is Date,
        Column::fetched(echo, Fetched::Date(date_value(col)->Ok_0.sql().1), after),
    ensures
        date_value(col)->Ok_0.sql() == (oci::SQLT_ODT, col.buf->Date_0, oci::OCI_DATE_SIZE),
        date_value(after) == date_value(col),
{
}

} // verus!
