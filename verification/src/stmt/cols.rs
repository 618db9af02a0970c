//! Columns of a projection: their metadata, their output buffers and the
//! status of the value that was fetched last.

use crate::desc::Descriptor;
use crate::err::{cannot_convert, outcome, Error, ErrorView};
use crate::oci;
use crate::types::date::{self, OCIDate};
use crate::types::number::{self, OCINumber};
use crate::types::raw::{self, OCIRaw};
use crate::types::varchar::{self, OCIString};
use vstd::prelude::*;

verus! {

/// Size of the buffer for LONG and LONG RAW columns unless the caller sets one.
pub const DEFAULT_LONG_BUFFER_SIZE: u32 = 32768;

/// Factor by which the reported size of a column is multiplied unless the
/// caller sets one. It leaves room for text that grows when it is converted
/// to the character set of the client.
pub const DEFAULT_UTF8_CONV_FACTOR: u32 = 2;

/// Column data type.
#[derive(Debug, PartialEq, Eq, Clone, Copy, Structural)]
pub enum ColumnType {
    /// Less common type for which no decoder exists.
    Unknown,
    Char,
    NChar,
    Varchar,
    NVarchar,
    Clob,
    NClob,
    Long,
    Raw,
    LongRaw,
    Blob,
    BFile,
    Number,
    BinaryFloat,
    BinaryDouble,
    Date,
    Timestamp,
    TimestampWithTimeZone,
    TimestampWithLocalTimeZone,
    IntervalYearToMonth,
    IntervalDayToSecond,
    RowID,
    Cursor,
}

impl ColumnType {
    /// The name of the type as SQL writes it.
    pub open spec fn sql_name(self) -> Seq<char> {
        match self {
            ColumnType::Unknown => "UNKNOWN"@,
            ColumnType::Char => "CHAR"@,
            ColumnType::NChar => "NCHAR"@,
            ColumnType::Varchar => "VARCHAR2"@,
            ColumnType::NVarchar => "NVARCHAR2"@,
            ColumnType::Clob => "CLOB"@,
            ColumnType::NClob => "NCLOB"@,
            ColumnType::Long => "LONG"@,
            ColumnType::Raw => "RAW"@,
            ColumnType::LongRaw => "LONG RAW"@,
            ColumnType::Blob => "BLOB"@,
            ColumnType::BFile => "BFILE"@,
            ColumnType::Number => "NUMBER"@,
            ColumnType::BinaryFloat => "BINARY_FLOAT"@,
            ColumnType::BinaryDouble => "BINARY_DOUBLE"@,
            ColumnType::Date => "DATE"@,
            ColumnType::Timestamp => "TIMESTAMP"@,
            ColumnType::TimestampWithTimeZone => "TIMESTAMP WITH TIME ZONE"@,
            ColumnType::TimestampWithLocalTimeZone => "TIMESTAMP WITH LOCAL TIME ZONE"@,
            ColumnType::IntervalYearToMonth => "INTERVAL YEAR TO MONTH"@,
            ColumnType::IntervalDayToSecond => "INTERVAL DAY TO SECOND"@,
            ColumnType::RowID => "ROWID"@,
            ColumnType::Cursor => "SYS_REFCURSOR"@,
        }
    }

    /// The name of the type as SQL writes it.
    pub fn as_str(&self) -> (name: &'static str)
        ensures
            name@ == self.sql_name(),
    {
        match self {
            ColumnType::Unknown => "UNKNOWN",
            ColumnType::Char => "CHAR",
            ColumnType::NChar => "NCHAR",
            ColumnType::Varchar => "VARCHAR2",
            ColumnType::NVarchar => "NVARCHAR2",
            ColumnType::Clob => "CLOB",
            ColumnType::NClob => "NCLOB",
            ColumnType::Long => "LONG",
            ColumnType::Raw => "RAW",
            ColumnType::LongRaw => "LONG RAW",
            ColumnType::Blob => "BLOB",
            ColumnType::BFile => "BFILE",
            ColumnType::Number => "NUMBER",
            ColumnType::BinaryFloat => "BINARY_FLOAT",
            ColumnType::BinaryDouble => "BINARY_DOUBLE",
            ColumnType::Date => "DATE",
            ColumnType::Timestamp => "TIMESTAMP",
            ColumnType::TimestampWithTimeZone => "TIMESTAMP WITH TIME ZONE",
            ColumnType::TimestampWithLocalTimeZone => "TIMESTAMP WITH LOCAL TIME ZONE",
            ColumnType::IntervalYearToMonth => "INTERVAL YEAR TO MONTH",
            ColumnType::IntervalDayToSecond => "INTERVAL DAY TO SECOND",
            ColumnType::RowID => "ROWID",
            ColumnType::Cursor => "SYS_REFCURSOR",
        }
    }

    /// The name of the type as SQL writes it, as an owned string.
    pub fn to_string(&self) -> (name: String)
        ensures
            name@ == self.sql_name(),
    {
        self.as_str().to_owned()
    }

    /// The column type that a wire type stands for. Character types are told
    /// apart by the form of their character set.
    pub open spec fn of(data_type: u16, charset_form: u8) -> ColumnType {
        if data_type == oci::SQLT_RDD {
            ColumnType::RowID
        } else if data_type == oci::SQLT_CHR {
            if charset_form == oci::SQLCS_NCHAR { ColumnType::NVarchar } else { ColumnType::Varchar }
        } else if data_type == oci::SQLT_AFC {
            if charset_form == oci::SQLCS_NCHAR { ColumnType::NChar } else { ColumnType::Char }
        } else if data_type == oci::SQLT_CLOB {
            if charset_form == oci::SQLCS_NCHAR { ColumnType::NClob } else { ColumnType::Clob }
        } else if data_type == oci::SQLT_LNG {
            ColumnType::Long
        } else if data_type == oci::SQLT_BIN {
            ColumnType::Raw
        } else if data_type == oci::SQLT_LBI {
            ColumnType::LongRaw
        } else if data_type == oci::SQLT_BLOB {
            ColumnType::Blob
        } else if data_type == oci::SQLT_BFILE {
            ColumnType::BFile
        } else if data_type == oci::SQLT_NUM {
            ColumnType::Number
        } else if data_type == oci::SQLT_DAT {
            ColumnType::Date
        } else if data_type == oci::SQLT_TIMESTAMP {
            ColumnType::Timestamp
        } else if data_type == oci::SQLT_TIMESTAMP_TZ {
            ColumnType::TimestampWithTimeZone
        } else if data_type == oci::SQLT_TIMESTAMP_LTZ {
            ColumnType::TimestampWithLocalTimeZone
        } else if data_type == oci::SQLT_INTERVAL_YM {
            ColumnType::IntervalYearToMonth
        } else if data_type == oci::SQLT_INTERVAL_DS {
            ColumnType::IntervalDayToSecond
        } else if data_type == oci::SQLT_IBFLOAT {
            ColumnType::BinaryFloat
        } else if data_type == oci::SQLT_IBDOUBLE {
            ColumnType::BinaryDouble
        } else if data_type == oci::SQLT_RSET {
            ColumnType::Cursor
        } else {
            ColumnType::Unknown
        }
    }

    /// True for the wire types whose column type depends on the form of the
    /// character set.
    pub open spec fn has_charset(data_type: u16) -> bool {
        data_type == oci::SQLT_CHR || data_type == oci::SQLT_AFC || data_type == oci::SQLT_CLOB
    }
}

/// Attributes of one column as the call interface reported them when the
/// statement was described. An attribute that could not be read holds the
/// error of that read.
pub struct ParamDesc {
    pub invisible: Result<u8, Error>,
    pub nullable: Result<u8, Error>,
    pub col_properties: Result<u8, Error>,
    pub name: Result<String, Error>,
    pub data_size: Result<u16, Error>,
    pub char_size: Result<u16, Error>,
    pub precision: Result<i16, Error>,
    pub scale: Result<i8, Error>,
    pub data_type: Result<u16, Error>,
    pub charset_form: Result<u8, Error>,
    pub named_type: Result<String, Error>,
    pub schema_name: Result<String, Error>,
}

/// A copy of the outcome of reading an attribute.
fn copy_attr<T: Copy>(attr: &Result<T, Error>) -> (r: Result<T, Error>)
    ensures
        r == *attr,
{
    match attr {
        Ok(v) => Ok(*v),
        Err(e) => Err(e.copy()),
    }
}

/// A copy of the outcome of reading a text attribute.
fn copy_text(attr: &Result<String, Error>) -> (r: Result<String, Error>)
    ensures
        r == *attr,
{
    match attr {
        Ok(text) => Ok(text.clone()),
        Err(e) => Err(e.copy()),
    }
}

impl ParamDesc {
    /// A copy of the attributes.
    pub fn copy(&self) -> (desc: ParamDesc)
        ensures
            desc == *self,
    {
        ParamDesc {
            invisible: copy_attr(&self.invisible),
            nullable: copy_attr(&self.nullable),
            col_properties: copy_attr(&self.col_properties),
            name: copy_text(&self.name),
            data_size: copy_attr(&self.data_size),
            char_size: copy_attr(&self.char_size),
            precision: copy_attr(&self.precision),
            scale: copy_attr(&self.scale),
            data_type: copy_attr(&self.data_type),
            charset_form: copy_attr(&self.charset_form),
            named_type: copy_text(&self.named_type),
            schema_name: copy_text(&self.schema_name),
        }
    }
}

/// True when `r` hands out a text attribute as it was read: the same text,
/// or the same error.
pub open spec fn text_attr(attr: Result<String, Error>, r: Result<&str, Error>) -> bool {
    match (attr, r) {
        (Ok(text), Ok(s)) => s@ == text@,
        (Err(e), Err(f)) => f == e,
        _ => false,
    }
}

/// Provides access to the column metadata.
pub struct ColumnInfo<'a> {
    desc: &'a ParamDesc,
}

impl<'a> ColumnInfo<'a> {
    /// The attributes that the accessors read.
    pub closed spec fn desc(&self) -> ParamDesc {
        *self.desc
    }

    /// The metadata of the column that `desc` describes.
    pub fn new(desc: &'a ParamDesc) -> (info: Self)
        ensures
            info.desc() == *desc,
    {
        Self { desc }
    }

    /// Returns `true` if a column is visible
    pub fn is_visible(&self) -> (r: Result<bool, Error>)
        ensures
            r == (match self.desc().invisible {
                Ok(invisible) => Ok::<bool, Error>(invisible == 0),
                Err(e) => Err(e),
            }),
    {
        match &self.desc.invisible {
            Ok(invisible) => Ok(*invisible == 0),
            Err(e) => Err(e.copy()),
        }
    }

    /// Returns `true` if NULLs are permitted in the column.
    ///
    /// Does not return a correct value for a CUBE or ROLLUP operation.
    pub fn is_null(&self) -> (r: Result<bool, Error>)
        ensures
            r == (match self.desc().nullable {
                Ok(nullable) => Ok::<bool, Error>(nullable != 0),
                Err(e) => Err(e),
            }),
    {
        match &self.desc.nullable {
            Ok(nullable) => Ok(*nullable != 0),
            Err(e) => Err(e.copy()),
        }
    }

    /// Returns `true` if column is an identity column.
    pub fn is_identity(&self) -> (r: Result<bool, Error>)
        ensures
            r == (match self.desc().col_properties {
                Ok(props) => Ok::<bool, Error>(
                    props & oci::OCI_ATTR_COL_PROPERTY_IS_IDENTITY != 0,
                ),
                Err(e) => Err(e),
            }),
    {
        match &self.desc.col_properties {
            Ok(props) => Ok(*props & oci::OCI_ATTR_COL_PROPERTY_IS_IDENTITY != 0),
            Err(e) => Err(e.copy()),
        }
    }

    /// Returns `true` if column value is GENERATED ALWAYS.
    /// `false` means that the value is GENERATED BY DEFAULT.
    pub fn is_generated_always(&self) -> (r: Result<bool, Error>)
        ensures
            r == (match self.desc().col_properties {
                Ok(props) => Ok::<bool, Error>(
                    props & oci::OCI_ATTR_COL_PROPERTY_IS_GEN_ALWAYS != 0,
                ),
                Err(e) => Err(e),
            }),
    {
        match &self.desc.col_properties {
            Ok(props) => Ok(*props & oci::OCI_ATTR_COL_PROPERTY_IS_GEN_ALWAYS != 0),
            Err(e) => Err(e.copy()),
        }
    }

    /// Returns true if column was declared as GENERATED BY DEFAULT ON NULL.
    pub fn is_generated_on_null(&self) -> (r: Result<bool, Error>)
        ensures
            r == (match self.desc().col_properties {
                Ok(props) => Ok::<bool, Error>(
                    props & oci::OCI_ATTR_COL_PROPERTY_IS_GEN_BY_DEF_ON_NULL != 0,
                ),
                Err(e) => Err(e),
            }),
    {
        match &self.desc.col_properties {
            Ok(props) => Ok(*props & oci::OCI_ATTR_COL_PROPERTY_IS_GEN_BY_DEF_ON_NULL != 0),
            Err(e) => Err(e.copy()),
        }
    }

    /// Returns the column name
    pub fn name(&self) -> (r: Result<&str, Error>)
        ensures
            text_attr(self.desc().name, r),
    {
        match &self.desc.name {
            Ok(name) => Ok(name.as_str()),
            Err(e) => Err(e.copy()),
        }
    }

    /// Returns the maximum size of the column in bytes.
    /// For example, it returns 22 for NUMBERs.
    pub fn size(&self) -> (r: Result<usize, Error>)
        ensures
            r == (match self.desc().data_size {
                Ok(size) => Ok::<usize, Error>(size as usize),
                Err(e) => Err(e),
            }),
    {
        match &self.desc.data_size {
            Ok(size) => Ok(*size as usize),
            Err(e) => Err(e.copy()),
        }
    }

    /// Returns the column character length that is the number of characters allowed in the column.
    ///
    /// It is the counterpart of `size`, which gets the byte length.
    pub fn char_size(&self) -> (r: Result<usize, Error>)
        ensures
            r == (match self.desc().char_size {
                Ok(size) => Ok::<usize, Error>(size as usize),
                Err(e) => Err(e),
            }),
    {
        match &self.desc.char_size {
            Ok(size) => Ok(*size as usize),
            Err(e) => Err(e.copy()),
        }
    }

    /// The precision of numeric columns.
    ///
    /// If the precision is nonzero and scale is -127, then it is a FLOAT; otherwise, it is a NUMBER(precision, scale).
    /// When precision is 0, NUMBER(precision, scale) can be represented simply as NUMBER.
    pub fn precision(&self) -> (r: Result<i16, Error>)
        ensures
            r == self.desc().precision,
    {
        match &self.desc.precision {
            Ok(precision) => Ok(*precision),
            Err(e) => Err(e.copy()),
        }
    }

    /// The scale of numeric columns.
    ///
    /// If the precision is nonzero and scale is -127, then it is a FLOAT; otherwise, it is a NUMBER(precision, scale).
    /// When precision is 0, NUMBER(precision, scale) can be represented simply as NUMBER.
    pub fn scale(&self) -> (r: Result<i8, Error>)
        ensures
            r == self.desc().scale,
    {
        match &self.desc.scale {
            Ok(scale) => Ok(*scale),
            Err(e) => Err(e.copy()),
        }
    }

    /// Returns the name of the column's type where that is a named type or a
    /// reference to one, and an empty string for every other column.
    pub fn named_type(&self) -> (r: Result<&str, Error>)
        ensures
            text_attr(self.desc().named_type, r),
    {
        match &self.desc.named_type {
            Ok(name) => Ok(name.as_str()),
            Err(e) => Err(e.copy()),
        }
    }

    /// Returns the schema name under which the type has been created.
    pub fn schema_name(&self) -> (r: Result<&str, Error>)
        ensures
            text_attr(self.desc().schema_name, r),
    {
        match &self.desc.schema_name {
            Ok(name) => Ok(name.as_str()),
            Err(e) => Err(e.copy()),
        }
    }

    /// The column type that the attributes give: the error of the data type
    /// if that could not be read; the error of the character set form if the
    /// data type is one that needs it and it could not be read.
    pub open spec fn data_type_of(desc: ParamDesc) -> Result<ColumnType, Error> {
        match desc.data_type {
            Err(e) => Err(e),
            Ok(data_type) => if ColumnType::has_charset(data_type) {
                match desc.charset_form {
                    Err(e) => Err(e),
                    Ok(form) => Ok(ColumnType::of(data_type, form)),
                }
            } else {
                Ok(ColumnType::of(data_type, 0))
            },
        }
    }

    /// Returns column data type.
    pub fn data_type(&self) -> (r: Result<ColumnType, Error>)
        ensures
            r == Self::data_type_of(self.desc()),
    {
        let data_type: u16 = match &self.desc.data_type {
            Ok(v) => *v,
            Err(e) => {
                return Err(e.copy());
            },
        };
        let col_type = if data_type == oci::SQLT_RDD {
            ColumnType::RowID
        } else if data_type == oci::SQLT_CHR || data_type == oci::SQLT_AFC || data_type == oci::SQLT_CLOB {
            let form: u8 = match &self.desc.charset_form {
                Ok(v) => *v,
                Err(e) => {
                    return Err(e.copy());
                },
            };
            let national = form == oci::SQLCS_NCHAR;
            if data_type == oci::SQLT_CHR {
                if national { ColumnType::NVarchar } else { ColumnType::Varchar }
            } else if data_type == oci::SQLT_AFC {
                if national { ColumnType::NChar } else { ColumnType::Char }
            } else {
                if national { ColumnType::NClob } else { ColumnType::Clob }
            }
        } else if data_type == oci::SQLT_LNG {
            ColumnType::Long
        } else if data_type == oci::SQLT_BIN {
            ColumnType::Raw
        } else if data_type == oci::SQLT_LBI {
            ColumnType::LongRaw
        } else if data_type == oci::SQLT_BLOB {
            ColumnType::Blob
        } else if data_type == oci::SQLT_BFILE {
            ColumnType::BFile
        } else if data_type == oci::SQLT_NUM {
            ColumnType::Number
        } else if data_type == oci::SQLT_DAT {
            ColumnType::Date
        } else if data_type == oci::SQLT_TIMESTAMP {
            ColumnType::Timestamp
        } else if data_type == oci::SQLT_TIMESTAMP_TZ {
            ColumnType::TimestampWithTimeZone
        } else if data_type == oci::SQLT_TIMESTAMP_LTZ {
            ColumnType::TimestampWithLocalTimeZone
        } else if data_type == oci::SQLT_INTERVAL_YM {
            ColumnType::IntervalYearToMonth
        } else if data_type == oci::SQLT_INTERVAL_DS {
            ColumnType::IntervalDayToSecond
        } else if data_type == oci::SQLT_IBFLOAT {
            ColumnType::BinaryFloat
        } else if data_type == oci::SQLT_IBDOUBLE {
            ColumnType::BinaryDouble
        } else if data_type == oci::SQLT_RSET {
            ColumnType::Cursor
        } else {
            ColumnType::Unknown
        };
        Ok(col_type)
    }
}

/// What the call interface has to allocate before a buffer can be made.
#[derive(Debug, PartialEq, Eq, Clone, Copy, Structural)]
pub enum Resource {
    /// Nothing: the buffer holds one value of a fixed size.
    Nothing,
    /// Memory for a string of the size of the column.
    String,
    /// Memory for binary data of the size of the column.
    Raw,
    /// A descriptor of the given type.
    Descriptor(u32),
    /// A handle of the given type.
    Handle(u32),
}

/// A value as the call interface delivers it when a row is fetched.
pub enum Fetched {
    /// The value is NULL.
    Null,
    /// Text or binary data, in full length.
    Bytes(Vec<u8>),
    /// Text or binary data that the call interface has cut to the memory
    /// that it was given, with the indicator that it reported for it: the
    /// full length, or the mark of a length that no indicator holds.
    Cut(Vec<u8>, i16),
    Number(OCINumber),
    Date(OCIDate),
    /// A BINARY_FLOAT as the bits of an IEEE 754 single.
    Float(u32),
    /// A BINARY_DOUBLE as the bits of an IEEE 754 double.
    Double(u64),
    /// The value is in the descriptor or handle of the column.
    Descriptor,
}

/// Column output buffer
pub enum ColumnBuffer {
    Text(OCIString),
    CLOB(Descriptor),
    Binary(OCIRaw),
    BLOB(Descriptor),
    BFile(Descriptor),
    Number(OCINumber),
    Date(OCIDate),
    Timestamp(Descriptor),
    TimestampTZ(Descriptor),
    TimestampLTZ(Descriptor),
    IntervalYM(Descriptor),
    IntervalDS(Descriptor),
    /// The bits of an IEEE 754 single.
    Float(u32),
    /// The bits of an IEEE 754 double.
    Double(u64),
    Rowid(Descriptor),
    Cursor(Descriptor),
}

/// The size of a pointer in bytes.
pub open spec fn pointer_size() -> int {
    usize::BITS as int / 8
}

/// The size of a pointer in bytes.
pub fn size_of_pointer() -> (size: i64)
    ensures
        size == pointer_size(),
{
    (usize::BITS / 8) as i64
}

impl ColumnBuffer {
    /// What has to be allocated for the buffer of a column of a wire type.
    pub open spec fn resource_of(data_type: u16) -> Resource {
        if data_type == oci::SQLT_TIMESTAMP {
            Resource::Descriptor(oci::OCI_DTYPE_TIMESTAMP)
        } else if data_type == oci::SQLT_TIMESTAMP_TZ {
            Resource::Descriptor(oci::OCI_DTYPE_TIMESTAMP_TZ)
        } else if data_type == oci::SQLT_TIMESTAMP_LTZ {
            Resource::Descriptor(oci::OCI_DTYPE_TIMESTAMP_LTZ)
        } else if data_type == oci::SQLT_INTERVAL_YM {
            Resource::Descriptor(oci::OCI_DTYPE_INTERVAL_YM)
        } else if data_type == oci::SQLT_INTERVAL_DS {
            Resource::Descriptor(oci::OCI_DTYPE_INTERVAL_DS)
        } else if data_type == oci::SQLT_CLOB || data_type == oci::SQLT_BLOB {
            Resource::Descriptor(oci::OCI_DTYPE_LOB)
        } else if data_type == oci::SQLT_BFILE {
            Resource::Descriptor(oci::OCI_DTYPE_FILE)
        } else if data_type == oci::SQLT_RDD {
            Resource::Descriptor(oci::OCI_DTYPE_ROWID)
        } else if data_type == oci::SQLT_RSET {
            Resource::Handle(oci::OCI_HTYPE_STMT)
        } else if data_type == oci::SQLT_NUM || data_type == oci::SQLT_DAT || data_type
            == oci::SQLT_IBFLOAT || data_type == oci::SQLT_IBDOUBLE {
            Resource::Nothing
        } else if data_type == oci::SQLT_BIN || data_type == oci::SQLT_LBI {
            Resource::Raw
        } else {
            Resource::String
        }
    }

    /// Tells what has to be allocated for the buffer of a column of a wire type.
    pub fn resource(data_type: u16) -> (r: Resource)
        ensures
            r == Self::resource_of(data_type),
    {
        if data_type == oci::SQLT_TIMESTAMP {
            Resource::Descriptor(oci::OCI_DTYPE_TIMESTAMP)
        } else if data_type == oci::SQLT_TIMESTAMP_TZ {
            Resource::Descriptor(oci::OCI_DTYPE_TIMESTAMP_TZ)
        } else if data_type == oci::SQLT_TIMESTAMP_LTZ {
            Resource::Descriptor(oci::OCI_DTYPE_TIMESTAMP_LTZ)
        } else if data_type == oci::SQLT_INTERVAL_YM {
            Resource::Descriptor(oci::OCI_DTYPE_INTERVAL_YM)
        } else if data_type == oci::SQLT_INTERVAL_DS {
            Resource::Descriptor(oci::OCI_DTYPE_INTERVAL_DS)
        } else if data_type == oci::SQLT_CLOB || data_type == oci::SQLT_BLOB {
            Resource::Descriptor(oci::OCI_DTYPE_LOB)
        } else if data_type == oci::SQLT_BFILE {
            Resource::Descriptor(oci::OCI_DTYPE_FILE)
        } else if data_type == oci::SQLT_RDD {
            Resource::Descriptor(oci::OCI_DTYPE_ROWID)
        } else if data_type == oci::SQLT_RSET {
            Resource::Handle(oci::OCI_HTYPE_STMT)
        } else if data_type == oci::SQLT_NUM || data_type == oci::SQLT_DAT || data_type
            == oci::SQLT_IBFLOAT || data_type == oci::SQLT_IBDOUBLE {
            Resource::Nothing
        } else if data_type == oci::SQLT_BIN || data_type == oci::SQLT_LBI {
            Resource::Raw
        } else {
            Resource::String
        }
    }

    /// True of the buffer that a column of wire type `data_type` gets: its
    /// variant follows from the wire type; text and binary buffers are empty
    /// with `data_size` bytes of memory; a descriptor is the one at `ptr` with
    /// nothing in it; every other value is zero.
    pub open spec fn is_new(self, data_type: u16, data_size: u32, ptr: u64) -> bool {
        let desc = Descriptor { ptr, init: false };
        if data_type == oci::SQLT_DAT {
            self == ColumnBuffer::Date(
                OCIDate { year: 0, month: 0, day: 0, hour: 0, min: 0, sec: 0 },
            )
        } else if data_type == oci::SQLT_TIMESTAMP {
            self == ColumnBuffer::Timestamp(desc)
        } else if data_type == oci::SQLT_TIMESTAMP_TZ {
            self == ColumnBuffer::TimestampTZ(desc)
        } else if data_type == oci::SQLT_TIMESTAMP_LTZ {
            self == ColumnBuffer::TimestampLTZ(desc)
        } else if data_type == oci::SQLT_INTERVAL_YM {
            self == ColumnBuffer::IntervalYM(desc)
        } else if data_type == oci::SQLT_INTERVAL_DS {
            self == ColumnBuffer::IntervalDS(desc)
        } else if data_type == oci::SQLT_NUM {
            self matches ColumnBuffer::Number(num) && number::is_zero(num)
        } else if data_type == oci::SQLT_IBFLOAT {
            self == ColumnBuffer::Float(0)
        } else if data_type == oci::SQLT_IBDOUBLE {
            self == ColumnBuffer::Double(0)
        } else if data_type == oci::SQLT_BIN || data_type == oci::SQLT_LBI {
            self matches ColumnBuffer::Binary(bin) && bin.bytes() == Seq::<u8>::empty()
                && bin.allocated() == data_size
        } else if data_type == oci::SQLT_CLOB {
            self == ColumnBuffer::CLOB(desc)
        } else if data_type == oci::SQLT_BLOB {
            self == ColumnBuffer::BLOB(desc)
        } else if data_type == oci::SQLT_BFILE {
            self == ColumnBuffer::BFile(desc)
        } else if data_type == oci::SQLT_RDD {
            self == ColumnBuffer::Rowid(desc)
        } else if data_type == oci::SQLT_RSET {
            self == ColumnBuffer::Cursor(desc)
        } else {
            self matches ColumnBuffer::Text(txt) && txt.bytes() == Seq::<u8>::empty()
                && txt.allocated() == data_size
        }
    }

    /// Makes the buffer of a column of wire type `data_type`. `resource` is
    /// the outcome of the allocation that `resource(data_type)` asks for: the
    /// address of what was allocated, or the error of the call interface,
    /// which is returned as it is. Where nothing had to be allocated,
    /// `resource` is not looked at.
    pub fn new(data_type: u16, data_size: u32, resource: Result<u64, Error>) -> (r: Result<
        Self,
        Error,
    >)
        ensures
            match (Self::resource_of(data_type), resource) {
                (Resource::Nothing, _) => r matches Ok(buf) && buf.is_new(data_type, data_size, 0),
                (_, Ok(ptr)) => r matches Ok(buf) && buf.is_new(data_type, data_size, ptr),
                (_, Err(e)) => r == Err::<Self, Error>(e),
            },
    {
        let val = if data_type == oci::SQLT_DAT {
            ColumnBuffer::Date(date::new())
        } else if data_type == oci::SQLT_NUM {
            ColumnBuffer::Number(number::new())
        } else if data_type == oci::SQLT_IBFLOAT {
            ColumnBuffer::Float(0)
        } else if data_type == oci::SQLT_IBDOUBLE {
            ColumnBuffer::Double(0)
        } else if data_type == oci::SQLT_BIN || data_type == oci::SQLT_LBI {
            let _ = resource?;
            ColumnBuffer::Binary(raw::new(data_size)?)
        } else if data_type == oci::SQLT_TIMESTAMP {
            ColumnBuffer::Timestamp(Descriptor::new(resource?))
        } else if data_type == oci::SQLT_TIMESTAMP_TZ {
            ColumnBuffer::TimestampTZ(Descriptor::new(resource?))
        } else if data_type == oci::SQLT_TIMESTAMP_LTZ {
            ColumnBuffer::TimestampLTZ(Descriptor::new(resource?))
        } else if data_type == oci::SQLT_INTERVAL_YM {
            ColumnBuffer::IntervalYM(Descriptor::new(resource?))
        } else if data_type == oci::SQLT_INTERVAL_DS {
            ColumnBuffer::IntervalDS(Descriptor::new(resource?))
        } else if data_type == oci::SQLT_CLOB {
            ColumnBuffer::CLOB(Descriptor::new(resource?))
        } else if data_type == oci::SQLT_BLOB {
            ColumnBuffer::BLOB(Descriptor::new(resource?))
        } else if data_type == oci::SQLT_BFILE {
            ColumnBuffer::BFile(Descriptor::new(resource?))
        } else if data_type == oci::SQLT_RDD {
            ColumnBuffer::Rowid(Descriptor::new(resource?))
        } else if data_type == oci::SQLT_RSET {
            ColumnBuffer::Cursor(Descriptor::new(resource?))
        } else {
            let _ = resource?;
            ColumnBuffer::Text(varchar::new(data_size)?)
        };
        Ok(val)
    }

    /// True when `after` is the buffer `before` without the memory of its
    /// text or binary data. Other buffers stay as they are.
    pub open spec fn released(before: ColumnBuffer, after: ColumnBuffer) -> bool {
        match before {
            ColumnBuffer::Text(_) => after matches ColumnBuffer::Text(txt) && txt.bytes()
                == Seq::<u8>::empty() && txt.allocated() == 0,
            ColumnBuffer::Binary(_) => after matches ColumnBuffer::Binary(bin) && bin.bytes()
                == Seq::<u8>::empty() && bin.allocated() == 0,
            _ => after == before,
        }
    }

    /// Releases the memory of a text or binary buffer. Other buffers are left
    /// as they are.
    pub fn drop(&mut self)
        ensures
            Self::released(*old(self), *final(self)),
    {
        match self {
            ColumnBuffer::Text(oci_str) => {
                varchar::free(oci_str);
            },
            ColumnBuffer::Binary(oci_raw) => {
                raw::free(oci_raw);
            },
            _ => {},
        }
    }

    /// The wire type in which the call interface is to deliver the values of
    /// the column, and the size of the memory that it may write to, for a
    /// buffer made for `col_size` bytes of data.
    pub open spec fn output_def(self, col_size: u32) -> (u16, i64) {
        match self {
            ColumnBuffer::Text(_) => (oci::SQLT_LVC, (col_size + oci::LENGTH_PREFIX_SIZE) as i64),
            ColumnBuffer::Binary(_) => (oci::SQLT_LVB, (col_size + oci::LENGTH_PREFIX_SIZE) as i64),
            ColumnBuffer::Number(_) => (oci::SQLT_VNU, oci::OCI_NUMBER_SIZE as i64),
            ColumnBuffer::Date(_) => (oci::SQLT_ODT, oci::OCI_DATE_SIZE as i64),
            ColumnBuffer::Timestamp(_) => (oci::SQLT_TIMESTAMP, pointer_size() as i64),
            ColumnBuffer::TimestampTZ(_) => (oci::SQLT_TIMESTAMP_TZ, pointer_size() as i64),
            ColumnBuffer::TimestampLTZ(_) => (oci::SQLT_TIMESTAMP_LTZ, pointer_size() as i64),
            ColumnBuffer::IntervalYM(_) => (oci::SQLT_INTERVAL_YM, pointer_size() as i64),
            ColumnBuffer::IntervalDS(_) => (oci::SQLT_INTERVAL_DS, pointer_size() as i64),
            ColumnBuffer::Float(_) => (oci::SQLT_BFLOAT, 4),
            ColumnBuffer::Double(_) => (oci::SQLT_BDOUBLE, 8),
            ColumnBuffer::CLOB(_) => (oci::SQLT_CLOB, pointer_size() as i64),
            ColumnBuffer::BLOB(_) => (oci::SQLT_BLOB, pointer_size() as i64),
            ColumnBuffer::BFile(_) => (oci::SQLT_BFILE, pointer_size() as i64),
            ColumnBuffer::Rowid(_) => (oci::SQLT_RDD, pointer_size() as i64),
            ColumnBuffer::Cursor(_) => (oci::SQLT_RSET, 0),
        }
    }

    /// Returns the wire type and the size of the memory of the buffer that a
    /// column of wire type `data_type` gets for `data_size` bytes of data.
    pub fn output_def_of(data_type: u16, data_size: u32) -> (r: (u16, i64))
        ensures
            forall|buf: ColumnBuffer, ptr: u64| #[trigger]
                buf.is_new(data_type, data_size, ptr) ==> r == buf.output_def(data_size),
    {
        let prefixed: i64 = data_size as i64 + oci::LENGTH_PREFIX_SIZE as i64;
        if data_type == oci::SQLT_DAT {
            (oci::SQLT_ODT, oci::OCI_DATE_SIZE as i64)
        } else if data_type == oci::SQLT_NUM {
            (oci::SQLT_VNU, oci::OCI_NUMBER_SIZE as i64)
        } else if data_type == oci::SQLT_IBFLOAT {
            (oci::SQLT_BFLOAT, 4)
        } else if data_type == oci::SQLT_IBDOUBLE {
            (oci::SQLT_BDOUBLE, 8)
        } else if data_type == oci::SQLT_BIN || data_type == oci::SQLT_LBI {
            (oci::SQLT_LVB, prefixed)
        } else if data_type == oci::SQLT_TIMESTAMP || data_type == oci::SQLT_TIMESTAMP_TZ
            || data_type == oci::SQLT_TIMESTAMP_LTZ || data_type == oci::SQLT_INTERVAL_YM
            || data_type == oci::SQLT_INTERVAL_DS || data_type == oci::SQLT_CLOB || data_type
            == oci::SQLT_BLOB || data_type == oci::SQLT_BFILE || data_type == oci::SQLT_RDD {
            (data_type, size_of_pointer())
        } else if data_type == oci::SQLT_RSET {
            (oci::SQLT_RSET, 0)
        } else {
            (oci::SQLT_LVC, prefixed)
        }
    }

    /// Returns (output type, buffer size)
    pub fn get_output_buffer_def(&self, col_size: u32) -> (r: (u16, i64))
        ensures
            r == self.output_def(col_size),
    {
        match self {
            ColumnBuffer::Text(_) => (oci::SQLT_LVC, col_size as i64 + oci::LENGTH_PREFIX_SIZE as i64),
            ColumnBuffer::Binary(_) => (oci::SQLT_LVB, col_size as i64 + oci::LENGTH_PREFIX_SIZE as i64),
            ColumnBuffer::Number(_) => (oci::SQLT_VNU, oci::OCI_NUMBER_SIZE as i64),
            ColumnBuffer::Date(_) => (oci::SQLT_ODT, oci::OCI_DATE_SIZE as i64),
            ColumnBuffer::Timestamp(_) => (oci::SQLT_TIMESTAMP, size_of_pointer()),
            ColumnBuffer::TimestampTZ(_) => (oci::SQLT_TIMESTAMP_TZ, size_of_pointer()),
            ColumnBuffer::TimestampLTZ(_) => (oci::SQLT_TIMESTAMP_LTZ, size_of_pointer()),
            ColumnBuffer::IntervalYM(_) => (oci::SQLT_INTERVAL_YM, size_of_pointer()),
            ColumnBuffer::IntervalDS(_) => (oci::SQLT_INTERVAL_DS, size_of_pointer()),
            ColumnBuffer::Float(_) => (oci::SQLT_BFLOAT, 4),
            ColumnBuffer::Double(_) => (oci::SQLT_BDOUBLE, 8),
            ColumnBuffer::CLOB(_) => (oci::SQLT_CLOB, size_of_pointer()),
            ColumnBuffer::BLOB(_) => (oci::SQLT_BLOB, size_of_pointer()),
            ColumnBuffer::BFile(_) => (oci::SQLT_BFILE, size_of_pointer()),
            ColumnBuffer::Rowid(_) => (oci::SQLT_RDD, size_of_pointer()),
            ColumnBuffer::Cursor(_) => (oci::SQLT_RSET, 0),
        }
    }
}

/// The indicator of a value of `full_len` bytes that was cut short: the full
/// length where an indicator can hold it, and the oversize mark where not.
pub open spec fn truncated_ind(full_len: nat) -> i16 {
    if full_len <= i16::MAX {
        full_len as i16
    } else {
        oci::OCI_IND_OVERSIZE
    }
}

impl Fetched {
    /// The name of the kind of the value.
    pub open spec fn kind_name(self) -> Seq<char> {
        match self {
            Fetched::Null => "NULL"@,
            Fetched::Bytes(_) => "Bytes"@,
            Fetched::Cut(_, _) => "Bytes"@,
            Fetched::Number(_) => "Number"@,
            Fetched::Date(_) => "Date"@,
            Fetched::Float(_) => "Float"@,
            Fetched::Double(_) => "Double"@,
            Fetched::Descriptor => "Descriptor"@,
        }
    }

    /// Returns the name of the kind of the value.
    pub fn kind(&self) -> (name: &'static str)
        ensures
            name@ == self.kind_name(),
    {
        match self {
            Fetched::Null => "NULL",
            Fetched::Bytes(_) => "Bytes",
            Fetched::Cut(_, _) => "Bytes",
            Fetched::Number(_) => "Number",
            Fetched::Date(_) => "Date",
            Fetched::Float(_) => "Float",
            Fetched::Double(_) => "Double",
            Fetched::Descriptor => "Descriptor",
        }
    }
}

impl ColumnBuffer {
    /// The name of the kind of value that the buffer holds.
    pub open spec fn kind_name(self) -> Seq<char> {
        match self {
            ColumnBuffer::Text(_) => "Text"@,
            ColumnBuffer::CLOB(_) => "CLOB"@,
            ColumnBuffer::Binary(_) => "Binary"@,
            ColumnBuffer::BLOB(_) => "BLOB"@,
            ColumnBuffer::BFile(_) => "BFile"@,
            ColumnBuffer::Number(_) => "Number"@,
            ColumnBuffer::Date(_) => "Date"@,
            ColumnBuffer::Timestamp(_) => "Timestamp"@,
            ColumnBuffer::TimestampTZ(_) => "TimestampTZ"@,
            ColumnBuffer::TimestampLTZ(_) => "TimestampLTZ"@,
            ColumnBuffer::IntervalYM(_) => "IntervalYM"@,
            ColumnBuffer::IntervalDS(_) => "IntervalDS"@,
            ColumnBuffer::Float(_) => "Float"@,
            ColumnBuffer::Double(_) => "Double"@,
            ColumnBuffer::Rowid(_) => "Rowid"@,
            ColumnBuffer::Cursor(_) => "Cursor"@,
        }
    }

    /// Returns the name of the kind of value that the buffer holds.
    pub fn kind(&self) -> (name: &'static str)
        ensures
            name@ == self.kind_name(),
    {
        match self {
            ColumnBuffer::Text(_) => "Text",
            ColumnBuffer::CLOB(_) => "CLOB",
            ColumnBuffer::Binary(_) => "Binary",
            ColumnBuffer::BLOB(_) => "BLOB",
            ColumnBuffer::BFile(_) => "BFile",
            ColumnBuffer::Number(_) => "Number",
            ColumnBuffer::Date(_) => "Date",
            ColumnBuffer::Timestamp(_) => "Timestamp",
            ColumnBuffer::TimestampTZ(_) => "TimestampTZ",
            ColumnBuffer::TimestampLTZ(_) => "TimestampLTZ",
            ColumnBuffer::IntervalYM(_) => "IntervalYM",
            ColumnBuffer::IntervalDS(_) => "IntervalDS",
            ColumnBuffer::Float(_) => "Float",
            ColumnBuffer::Double(_) => "Double",
            ColumnBuffer::Rowid(_) => "Rowid",
            ColumnBuffer::Cursor(_) => "Cursor",
        }
    }

    /// The wire type in which the values of the buffer are delivered. It
    /// tells the kinds of buffer apart.
    pub open spec fn sql_type(self) -> u16 {
        self.output_def(0).0
    }

    /// The number of bytes of data for which the buffer has memory: that of
    /// its text or binary data, and 0 for every other buffer, which holds one
    /// value of a fixed size.
    pub open spec fn data_size(self) -> nat {
        match self {
            ColumnBuffer::Text(txt) => txt.allocated(),
            ColumnBuffer::Binary(bin) => bin.allocated(),
            _ => 0,
        }
    }

    /// Returns the number of bytes of data for which the buffer has memory.
    pub fn size(&self) -> (n: u32)
        ensures
            n == self.data_size(),
    {
        match self {
            ColumnBuffer::Text(txt) => varchar::size(txt),
            ColumnBuffer::Binary(bin) => raw::size(bin),
            _ => 0,
        }
    }

    /// True when the buffer is of the kind that holds the values of a column
    /// of the given type. A column of a type that has no decoder is read as
    /// text.
    pub open spec fn holds_type(self, column_type: ColumnType) -> bool {
        match column_type {
            ColumnType::Unknown => self is Text,
            ColumnType::Char => self is Text,
            ColumnType::NChar => self is Text,
            ColumnType::Varchar => self is Text,
            ColumnType::NVarchar => self is Text,
            ColumnType::Long => self is Text,
            ColumnType::Clob => self is CLOB,
            ColumnType::NClob => self is CLOB,
            ColumnType::Raw => self is Binary,
            ColumnType::LongRaw => self is Binary,
            ColumnType::Blob => self is BLOB,
            ColumnType::BFile => self is BFile,
            ColumnType::Number => self is Number,
            ColumnType::BinaryFloat => self is Float,
            ColumnType::BinaryDouble => self is Double,
            ColumnType::Date => self is Date,
            ColumnType::Timestamp => self is Timestamp,
            ColumnType::TimestampWithTimeZone => self is TimestampTZ,
            ColumnType::TimestampWithLocalTimeZone => self is TimestampLTZ,
            ColumnType::IntervalYearToMonth => self is IntervalYM,
            ColumnType::IntervalDayToSecond => self is IntervalDS,
            ColumnType::RowID => self is Rowid,
            ColumnType::Cursor => self is Cursor,
        }
    }

    /// The descriptor or handle of the buffer, if it has one.
    pub open spec fn descriptor(self) -> Option<Descriptor> {
        match self {
            ColumnBuffer::CLOB(d) => Some(d),
            ColumnBuffer::BLOB(d) => Some(d),
            ColumnBuffer::BFile(d) => Some(d),
            ColumnBuffer::Timestamp(d) => Some(d),
            ColumnBuffer::TimestampTZ(d) => Some(d),
            ColumnBuffer::TimestampLTZ(d) => Some(d),
            ColumnBuffer::IntervalYM(d) => Some(d),
            ColumnBuffer::IntervalDS(d) => Some(d),
            ColumnBuffer::Rowid(d) => Some(d),
            ColumnBuffer::Cursor(d) => Some(d),
            _ => None,
        }
    }

    /// The buffer with `desc` in place of its descriptor or handle.
    pub open spec fn with_descriptor(self, desc: Descriptor) -> ColumnBuffer {
        match self {
            ColumnBuffer::CLOB(_) => ColumnBuffer::CLOB(desc),
            ColumnBuffer::BLOB(_) => ColumnBuffer::BLOB(desc),
            ColumnBuffer::BFile(_) => ColumnBuffer::BFile(desc),
            ColumnBuffer::Timestamp(_) => ColumnBuffer::Timestamp(desc),
            ColumnBuffer::TimestampTZ(_) => ColumnBuffer::TimestampTZ(desc),
            ColumnBuffer::TimestampLTZ(_) => ColumnBuffer::TimestampLTZ(desc),
            ColumnBuffer::IntervalYM(_) => ColumnBuffer::IntervalYM(desc),
            ColumnBuffer::IntervalDS(_) => ColumnBuffer::IntervalDS(desc),
            ColumnBuffer::Rowid(_) => ColumnBuffer::Rowid(desc),
            ColumnBuffer::Cursor(_) => ColumnBuffer::Cursor(desc),
            _ => self,
        }
    }

    /// True when a fetched value is of the kind that the buffer holds.
    pub open spec fn accepts(self, value: Fetched) -> bool {
        match value {
            Fetched::Null => true,
            Fetched::Bytes(_) => self is Text || self is Binary,
            Fetched::Cut(_, _) => self is Text || self is Binary,
            Fetched::Number(_) => self is Number,
            Fetched::Date(_) => self is Date,
            Fetched::Float(_) => self is Float,
            Fetched::Double(_) => self is Double,
            Fetched::Descriptor => self.descriptor() is Some,
        }
    }

    /// Marks the descriptor or handle of the buffer as holding a value, and
    /// tells whether the buffer has one.
    fn load(&mut self) -> (loaded: bool)
        ensures
            loaded == (old(self).descriptor() is Some),
            loaded ==> *final(self) == old(self).with_descriptor(
                Descriptor { ptr: old(self).descriptor()->Some_0.ptr, init: true },
            ),
            !loaded ==> *final(self) == *old(self),
    {
        match self {
            ColumnBuffer::CLOB(d) => {
                d.init = true;
                true
            },
            ColumnBuffer::BLOB(d) => {
                d.init = true;
                true
            },
            ColumnBuffer::BFile(d) => {
                d.init = true;
                true
            },
            ColumnBuffer::Timestamp(d) => {
                d.init = true;
                true
            },
            ColumnBuffer::TimestampTZ(d) => {
                d.init = true;
                true
            },
            ColumnBuffer::TimestampLTZ(d) => {
                d.init = true;
                true
            },
            ColumnBuffer::IntervalYM(d) => {
                d.init = true;
                true
            },
            ColumnBuffer::IntervalDS(d) => {
                d.init = true;
                true
            },
            ColumnBuffer::Rowid(d) => {
                d.init = true;
                true
            },
            ColumnBuffer::Cursor(d) => {
                d.init = true;
                true
            },
            _ => false,
        }
    }
}

/// Internal representation of a column from a SELECT projection
pub struct Column {
    pub buf: ColumnBuffer,
    pub inf: ParamDesc,
    /// Length of data fetched
    pub len: u32,
    /// Output "indicator":
    /// * -2  : The length of the item is greater than the length of the output variable; the item has been truncated,
    ///         and its full length is more than an indicator can hold.
    /// * -1  : The selected value is null, and the value of the output variable is unchanged.
    /// *  0  : Oracle Database assigned an intact value to the host variable
    /// * \>0 : The length of the item is greater than the length of the output variable; the item has been truncated.
    ///         The positive value returned in the indicator variable is the actual length before truncation.
    pub ind: i16,
}

impl Column {
    /// A column with the given buffer and attributes, into which nothing was
    /// fetched yet.
    pub fn new(buf: ColumnBuffer, inf: ParamDesc) -> (col: Self)
        ensures
            col == (Column { buf, inf, len: 0, ind: 0 }),
    {
        Self { buf, inf, len: 0, ind: 0 }
    }

    /// True when the value that was fetched last is NULL.
    pub open spec fn null(&self) -> bool {
        self.ind == oci::OCI_IND_NULL
    }

    /// Returns `true` if the last value fetched was NULL.
    pub fn is_null(&self) -> (r: bool)
        ensures
            r == self.null(),
    {
        self.ind == oci::OCI_IND_NULL
    }

    /// The buffer of the column.
    pub fn data(&mut self) -> (buf: &mut ColumnBuffer)
        ensures
            *buf == old(self).buf,
            *final(self) == (Column { buf: *final(buf), ..*old(self) }),
    {
        &mut self.buf
    }

    /// Returns the column name
    pub fn name(&self) -> (r: Result<&str, Error>)
        ensures
            text_attr(self.inf.name, r),
    {
        match &self.inf.name {
            Ok(name) => Ok(name.as_str()),
            Err(e) => Err(e.copy()),
        }
    }

    /// True when `after` is the column `before` with the text or binary data
    /// `data` in its buffer. The data is kept as far as the memory of the
    /// buffer reaches, and the length is what was kept. The indicator is
    /// `whole` where all of the data was kept, and tells its full length
    /// where not.
    pub open spec fn stored(before: Column, data: Seq<u8>, whole: i16, after: Column) -> bool {
        let full = data.len();
        match (before.buf, after.buf) {
            (ColumnBuffer::Text(old_txt), ColumnBuffer::Text(txt)) => {
                &&& txt.allocated() == old_txt.allocated()
                &&& after.len == if full <= txt.allocated() {
                    full
                } else {
                    txt.allocated()
                }
                &&& txt.bytes() == data.take(after.len as int)
                &&& after.ind == if full <= txt.allocated() {
                    whole
                } else {
                    truncated_ind(full)
                }
            },
            (ColumnBuffer::Binary(old_bin), ColumnBuffer::Binary(bin)) => {
                &&& bin.allocated() == old_bin.allocated()
                &&& after.len == if full <= bin.allocated() {
                    full
                } else {
                    bin.allocated()
                }
                &&& bin.bytes() == data.take(after.len as int)
                &&& after.ind == if full <= bin.allocated() {
                    whole
                } else {
                    truncated_ind(full)
                }
            },
            _ => false,
        }
    }

    /// True when `after` is the column `before` with `value` fetched into it.
    /// A NULL leaves the buffer as it was. Text and binary data is kept as
    /// far as the memory of the buffer reaches; the length is what was kept,
    /// and the indicator tells whether that is all: of data that comes in
    /// full length it is worked out, and of data that the call interface has
    /// cut it is the one that was reported. Every other value takes the place
    /// of the one before it.
    pub open spec fn fetched(before: Column, value: Fetched, after: Column) -> bool {
        &&& after.inf == before.inf
        &&& match value {
            Fetched::Null => after.buf == before.buf && after.ind == oci::OCI_IND_NULL
                && after.len == 0,
            Fetched::Bytes(data) => Self::stored(before, data@, oci::OCI_IND_NOTNULL, after),
            Fetched::Cut(data, ind) => Self::stored(before, data@, ind, after),
            Fetched::Number(num) => after.buf == ColumnBuffer::Number(num) && after.ind
                == oci::OCI_IND_NOTNULL && after.len == oci::OCI_NUMBER_SIZE,
            Fetched::Date(date) => after.buf == ColumnBuffer::Date(date) && after.ind
                == oci::OCI_IND_NOTNULL && after.len == oci::OCI_DATE_SIZE,
            Fetched::Float(bits) => after.buf == ColumnBuffer::Float(bits) && after.ind
                == oci::OCI_IND_NOTNULL && after.len == 4,
            Fetched::Double(bits) => after.buf == ColumnBuffer::Double(bits) && after.ind
                == oci::OCI_IND_NOTNULL && after.len == 8,
            Fetched::Descriptor => before.buf.descriptor() is Some && after.buf
                == before.buf.with_descriptor(
                Descriptor { ptr: before.buf.descriptor()->Some_0.ptr, init: true },
            ) && after.ind == oci::OCI_IND_NOTNULL && after.len == 0,
        }
    }

    /// Puts text or binary data into the buffer of the column.
    fn store(&mut self, data: &[u8], whole: i16) -> (r: Result<(), Error>)
        ensures
            old(self).buf is Text || old(self).buf is Binary ==> r is Ok && Self::stored(
                *old(self),
                data@,
                whole,
                *final(self),
            ) && final(self).inf == old(self).inf,
            !(old(self).buf is Text || old(self).buf is Binary) ==> (r matches Err(e) && e@
                == cannot_convert("Bytes"@, old(self).buf.kind_name()))
                && *final(self) == *old(self),
    {
        let full: usize = data.len();
        let kept: usize = match &mut self.buf {
            ColumnBuffer::Text(txt) => varchar::store(txt, data),
            ColumnBuffer::Binary(bin) => raw::store(bin, data),
            other => {
                return Err(Error::conversion("Bytes", other.kind()));
            },
        };
        self.len = kept as u32;
        self.ind = if kept == full {
            whole
        } else if full <= i16::MAX as usize {
            full as i16
        } else {
            oci::OCI_IND_OVERSIZE
        };
        Ok(())
    }

    /// Takes the value that the call interface delivered for this column of
    /// the row that was fetched. A value of another kind than the buffer
    /// holds is refused, and the column stays as it was.
    pub fn fetch(&mut self, value: Fetched) -> (r: Result<(), Error>)
        ensures
            old(self).buf.accepts(value) ==> r is Ok && Self::fetched(*old(self), value, *final(self)),
            !old(self).buf.accepts(value) ==> (r matches Err(e) && e@ == cannot_convert(
                value.kind_name(),
                old(self).buf.kind_name(),
            )) && *final(self) == *old(self),
            final(self).buf.sql_type() == old(self).buf.sql_type(),
    {
        match value {
            Fetched::Null => {
                self.ind = oci::OCI_IND_NULL;
                self.len = 0;
                Ok(())
            },
            Fetched::Bytes(data) => self.store(data.as_slice(), oci::OCI_IND_NOTNULL),
            Fetched::Cut(data, ind) => self.store(data.as_slice(), ind),
            Fetched::Number(num) => {
                if let ColumnBuffer::Number(_) = &self.buf {
                    self.buf = ColumnBuffer::Number(num);
                    self.ind = oci::OCI_IND_NOTNULL;
                    self.len = oci::OCI_NUMBER_SIZE as u32;
                    Ok(())
                } else {
                    Err(Error::conversion("Number", self.buf.kind()))
                }
            },
            Fetched::Date(date) => {
                if let ColumnBuffer::Date(_) = &self.buf {
                    self.buf = ColumnBuffer::Date(date);
                    self.ind = oci::OCI_IND_NOTNULL;
                    self.len = oci::OCI_DATE_SIZE as u32;
                    Ok(())
                } else {
                    Err(Error::conversion("Date", self.buf.kind()))
                }
            },
            Fetched::Float(bits) => {
                if let ColumnBuffer::Float(_) = &self.buf {
                    self.buf = ColumnBuffer::Float(bits);
                    self.ind = oci::OCI_IND_NOTNULL;
                    self.len = 4;
                    Ok(())
                } else {
                    Err(Error::conversion("Float", self.buf.kind()))
                }
            },
            Fetched::Double(bits) => {
                if let ColumnBuffer::Double(_) = &self.buf {
                    self.buf = ColumnBuffer::Double(bits);
                    self.ind = oci::OCI_IND_NOTNULL;
                    self.len = 8;
                    Ok(())
                } else {
                    Err(Error::conversion("Double", self.buf.kind()))
                }
            },
            Fetched::Descriptor => {
                if self.buf.load() {
                    self.ind = oci::OCI_IND_NOTNULL;
                    self.len = 0;
                    Ok(())
                } else {
                    Err(Error::conversion("Descriptor", self.buf.kind()))
                }
            },
        }
    }
}

/// What is known of one column when the projection of a statement is
/// described: its attributes, the outcome of allocating what its buffer needs
/// and the outcome of registering the buffer as the place for its values.
pub struct ColumnSource {
    pub desc: ParamDesc,
    /// The address of the descriptor or handle that `ColumnBuffer::resource`
    /// asks for, or the error of its allocation.
    pub resource: Result<u64, Error>,
    /// The outcome of defining the output buffer.
    pub define: Result<(), Error>,
}

/// The error of a column whose size times the factor is more than a size of
/// the call interface can be.
pub open spec fn size_too_large() -> ErrorView {
    ErrorView::Interface("column size is too large"@)
}

/// Internal representation of columns from a SELECT projection
pub struct Columns {
    cols: Vec<Column>,
}

impl View for Columns {
    type V = Seq<Column>;

    closed spec fn view(&self) -> Seq<Column> {
        self.cols@
    }
}

impl Columns {
    /// True of the wire types whose columns have no size worth the name.
    pub open spec fn is_long(data_type: u16) -> bool {
        data_type == oci::SQLT_LNG || data_type == oci::SQLT_LBI
    }

    /// The number of bytes for which the buffer of a column is made: the
    /// limit for long values where the column is LONG or LONG RAW, and else
    /// the size that was reported for the column times the factor. A product
    /// beyond what a size of the call interface can be is an error.
    pub open spec fn data_size_of(
        desc: ParamDesc,
        data_type: u16,
        max_long_fetch_size: u32,
        utf8_factor: u32,
    ) -> Result<u32, ErrorView> {
        if Self::is_long(data_type) {
            Ok(max_long_fetch_size)
        } else {
            match desc.data_size {
                Ok(size) => if size * utf8_factor <= u32::MAX {
                    Ok((size * utf8_factor) as u32)
                } else {
                    Err(size_too_large())
                },
                Err(e) => Err(e@),
            }
        }
    }

    /// Computes the number of bytes for which the buffer of a column is made.
    pub fn data_size(
        desc: &ParamDesc,
        data_type: u16,
        max_long_fetch_size: u32,
        utf8_factor: u32,
    ) -> (r: Result<u32, Error>)
        ensures
            outcome(r) == Self::data_size_of(*desc, data_type, max_long_fetch_size, utf8_factor),
            desc.data_size is Err && !Self::is_long(data_type) ==> r == Err::<u32, Error>(
                desc.data_size->Err_0,
            ),
    {
        if data_type == oci::SQLT_LNG || data_type == oci::SQLT_LBI {
            Ok(max_long_fetch_size)
        } else {
            match &desc.data_size {
                Ok(size) => {
                    let size: u32 = *size as u32;
                    match size.checked_mul(utf8_factor) {
                        Some(product) => Ok(product),
                        None => Err(Error::new("column size is too large")),
                    }
                },
                Err(e) => Err(e.copy()),
            }
        }
    }

    /// The error that stops the description at a column, if one does: that
    /// of its data type, of its size, of the allocation for its buffer, of
    /// the definition of its buffer or of its name, whichever comes first in
    /// this order.
    pub open spec fn failure(
        item: ColumnSource,
        max_long_fetch_size: u32,
        utf8_factor: u32,
    ) -> Option<ErrorView> {
        match item.desc.data_type {
            Err(e) => Some(e@),
            Ok(data_type) => match Self::data_size_of(
                item.desc,
                data_type,
                max_long_fetch_size,
                utf8_factor,
            ) {
                Err(e) => Some(e),
                Ok(_) => if !(ColumnBuffer::resource_of(data_type) is Nothing) && item.resource
                    is Err {
                    Some(item.resource->Err_0@)
                } else {
                    match item.define {
                        Err(e) => Some(e@),
                        Ok(_) => match item.desc.name {
                            Err(e) => Some(e@),
                            Ok(_) => None,
                        },
                    }
                },
            },
        }
    }

    /// True when `col` is the column that the description makes of `item`:
    /// a new buffer of the item's wire type and size, with the item's
    /// attributes, and nothing fetched.
    pub open spec fn described(
        col: Column,
        item: ColumnSource,
        max_long_fetch_size: u32,
        utf8_factor: u32,
    ) -> bool {
        let data_type = item.desc.data_type->Ok_0;
        let data_size = Self::data_size_of(
            item.desc,
            data_type,
            max_long_fetch_size,
            utf8_factor,
        )->Ok_0;
        let ptr = if ColumnBuffer::resource_of(data_type) is Nothing {
            0
        } else {
            item.resource->Ok_0
        };
        &&& col.buf.is_new(data_type, data_size, ptr)
        &&& col.inf == item.desc
        &&& col.len == 0
        &&& col.ind == 0
    }

    /// Makes the columns of a projection, one for each item and in their
    /// order. The first column that fails stops the description with its
    /// error.
    pub fn new(items: &[ColumnSource], max_long_fetch_size: u32, utf8_factor: u32) -> (r: Result<
        Self,
        Error,
    >)
        ensures
            match r {
                Ok(columns) => {
                    &&& columns@.len() == items@.len()
                    &&& forall|i: int|
                        0 <= i < items@.len() ==> Self::failure(
                            #[trigger] items@[i],
                            max_long_fetch_size,
                            utf8_factor,
                        ) is None
                    &&& forall|i: int|
                        0 <= i < items@.len() ==> Self::described(
                            #[trigger] columns@[i],
                            items@[i],
                            max_long_fetch_size,
                            utf8_factor,
                        )
                },
                Err(e) => exists|i: int|
                    {
                        &&& 0 <= i < items@.len()
                        &&& Self::failure(#[trigger] items@[i], max_long_fetch_size, utf8_factor)
                            == Some(e@)
                        &&& forall|j: int|
                            0 <= j < i ==> Self::failure(
                                #[trigger] items@[j],
                                max_long_fetch_size,
                                utf8_factor,
                            ) is None
                    },
            },
    {
        let num_columns: usize = items.len();
        let mut cols: Vec<Column> = Vec::with_capacity(num_columns);
        let mut i: usize = 0;
        while i < num_columns
            invariant
                num_columns == items@.len(),
                i <= num_columns,
                cols@.len() == i,
                forall|j: int|
                    0 <= j < i ==> Self::failure(
                        #[trigger] items@[j],
                        max_long_fetch_size,
                        utf8_factor,
                    ) is None,
                forall|j: int|
                    0 <= j < i ==> Self::described(
                        #[trigger] cols@[j],
                        items@[j],
                        max_long_fetch_size,
                        utf8_factor,
                    ),
            decreases num_columns - i,
        {
            let item = &items[i];
            let ghost at = i as int;
            let data_type: u16 = match &item.desc.data_type {
                Ok(data_type) => *data_type,
                Err(e) => {
                    let e = e.copy();
                    assert(Self::failure(items@[at], max_long_fetch_size, utf8_factor) == Some(e@));
                    return Err(e);
                },
            };
            let data_size: u32 = match Self::data_size(
                &item.desc,
                data_type,
                max_long_fetch_size,
                utf8_factor,
            ) {
                Ok(data_size) => data_size,
                Err(e) => {
                    assert(Self::failure(items@[at], max_long_fetch_size, utf8_factor) == Some(e@));
                    return Err(e);
                },
            };
            let buf = match ColumnBuffer::new(data_type, data_size, copy_attr(&item.resource)) {
                Ok(buf) => buf,
                Err(e) => {
                    assert(Self::failure(items@[at], max_long_fetch_size, utf8_factor) == Some(e@));
                    return Err(e);
                },
            };
            let col = Column::new(buf, item.desc.copy());
            if let Err(e) = &item.define {
                let e = e.copy();
                assert(Self::failure(items@[at], max_long_fetch_size, utf8_factor) == Some(e@));
                return Err(e);
            }
            if let Err(e) = &item.desc.name {
                let e = e.copy();
                assert(Self::failure(items@[at], max_long_fetch_size, utf8_factor) == Some(e@));
                return Err(e);
            }
            assert(Self::failure(items@[at], max_long_fetch_size, utf8_factor) is None);
            assert(Self::described(col, items@[at], max_long_fetch_size, utf8_factor));
            cols.push(col);
            i += 1;
        }
        Ok(Self { cols })
    }

    /// The number of columns.
    pub fn len(&self) -> (n: usize)
        ensures
            n == self@.len(),
    {
        self.cols.len()
    }

    /// True when the column has the given name.
    pub open spec fn has_name(col: Column, name: Seq<char>) -> bool {
        col.inf.name matches Ok(text) && text@ == name
    }

    /// Returns the index of the column with the given name: of the last one,
    /// where several columns have it.
    pub fn col_index(&self, name: &str) -> (r: Option<usize>)
        ensures
            match r {
                Some(index) => {
                    &&& index < self@.len()
                    &&& Self::has_name(self@[index as int], name@)
                    &&& forall|j: int|
                        index < j < self@.len() ==> !Self::has_name(#[trigger] self@[j], name@)
                },
                None => forall|j: int|
                    0 <= j < self@.len() ==> !Self::has_name(#[trigger] self@[j], name@),
            },
    {
        let wanted: String = name.to_owned();
        let mut i: usize = self.cols.len();
        while i > 0
            invariant
                i <= self@.len(),
                wanted@ == name@,
                forall|j: int| i <= j < self@.len() ==> !Self::has_name(#[trigger] self@[j], name@),
            decreases i,
        {
            i -= 1;
            if let Ok(text) = &self.cols[i].inf.name {
                if *text == wanted {
                    return Some(i);
                }
            }
        }
        None
    }

    /// Returns Column at the specified index or None if column index is out of bounds.
    pub fn col(&self, index: usize) -> (r: Option<&Column>)
        ensures
            index < self@.len() ==> r == Some(&self@[index as int]),
            index >= self@.len() ==> r is None,
    {
        if index < self.cols.len() {
            Some(&self.cols[index])
        } else {
            None
        }
    }

    /// Returns mutable Column at the specified index or None if column index is out of bounds.
    pub fn col_mut(&mut self, index: usize) -> (r: Option<&mut Column>)
        ensures
            match r {
                Some(col) => {
                    &&& index < old(self)@.len()
                    &&& *col == old(self)@[index as int]
                    &&& final(self)@ == old(self)@.update(index as int, *final(col))
                },
                None => index >= old(self)@.len() && final(self)@ == old(self)@,
            },
    {
        if index < self.cols.len() {
            Some(&mut self.cols[index])
        } else {
            None
        }
    }

    /// Returns `true` if the last value fetched was NULL.
    pub fn is_null(&self, index: usize) -> (r: bool)
        ensures
            r == (index >= self@.len() || self@[index as int].null()),
    {
        if index < self.cols.len() {
            self.cols[index].is_null()
        } else {
            true
        }
    }

    /// Returns the attributes of the column at the specified index or None
    /// if column index is out of bounds.
    pub fn column_param(&self, index: usize) -> (r: Option<&ParamDesc>)
        ensures
            index < self@.len() ==> r == Some(&self@[index as int].inf),
            index >= self@.len() ==> r is None,
    {
        if index < self.cols.len() {
            Some(&self.cols[index].inf)
        } else {
            None
        }
    }

    /// Returns what the call interface has to be told of the buffer of the
    /// column at `index`, to write the values of the column there: the
    /// position of the column, which counts from 1, the wire type in which
    /// the values are to come and the size of the memory.
    pub fn output_buffer_def(&self, index: usize) -> (r: Option<(u32, u16, i64)>)
        ensures
            index < self@.len() && index < u32::MAX ==> r == Some(
                (
                    (index + 1) as u32,
                    self@[index as int].buf.output_def(self@[index as int].buf.data_size() as u32).0,
                    self@[index as int].buf.output_def(self@[index as int].buf.data_size() as u32).1,
                ),
            ),
            index >= self@.len() || index >= u32::MAX ==> r is None,
    {
        if index < self.cols.len() && index < u32::MAX as usize {
            let buf = &self.cols[index].buf;
            let (output_type, size) = buf.get_output_buffer_def(buf.size());
            Some(((index + 1) as u32, output_type, size))
        } else {
            None
        }
    }

    /// Releases the memory of the text and binary buffers of all columns.
    pub fn drop(&mut self)
        ensures
            final(self)@.len() == old(self)@.len(),
            forall|i: int|
                0 <= i < old(self)@.len() ==> {
                    &&& ColumnBuffer::released(old(self)@[i].buf, #[trigger] final(self)@[i].buf)
                    &&& final(self)@[i].inf == old(self)@[i].inf
                    &&& final(self)@[i].len == old(self)@[i].len
                    &&& final(self)@[i].ind == old(self)@[i].ind
                },
    {
        let n: usize = self.cols.len();
        let mut i: usize = 0;
        while i < n
            invariant
                n == old(self)@.len(),
                self@.len() == n,
                i <= n,
                forall|j: int|
                    0 <= j < i ==> {
                        &&& ColumnBuffer::released(old(self)@[j].buf, #[trigger] self@[j].buf)
                        &&& self@[j].inf == old(self)@[j].inf
                        &&& self@[j].len == old(self)@[j].len
                        &&& self@[j].ind == old(self)@[j].ind
                    },
                forall|j: int| i <= j < n ==> self@[j] == old(self)@[j],
            decreases n - i,
        {
            let col = &mut self.cols[i];
            col.buf.drop();
            i += 1;
        }
    }
}

/// The buffer of a column of text or binary data has memory for the size that
/// was reported for the column times the factor, and where the column is LONG
/// or LONG RAW for the limit of long values instead, whatever the factor is.
/// The call interface is told of that memory and of the length that precedes
/// the data.
pub proof fn lemma_buffer_capacity(
    col: Column,
    item: ColumnSource,
    max_long_fetch_size: u32,
    utf8_factor: u32,
)
    requires
        Columns::failure(item, max_long_fetch_size, utf8_factor) is None,
        Columns::described(col, item, max_long_fetch_size, utf8_factor),
        col.buf is Text || col.buf is Binary,
    ensures
        col.buf.data_size() == if Columns::is_long(item.desc.data_type->Ok_0) {
            max_long_fetch_size as int
        } else {
            item.desc.data_size->Ok_0 * utf8_factor
        },
        col.buf.output_def(col.buf.data_size() as u32).1 == col.buf.data_size()
            + oci::LENGTH_PREFIX_SIZE,
{
    let data_type = item.desc.data_type->Ok_0;
    let data_size = Columns::data_size_of(
        item.desc,
        data_type,
        max_long_fetch_size,
        utf8_factor,
    )->Ok_0;
    assert(col.buf.data_size() == data_size);
}

/// A column whose size times the factor is more than a size of the call
/// interface can be stops the description: no buffer smaller than the
/// product is made for it.
pub proof fn lemma_size_overflow(item: ColumnSource, max_long_fetch_size: u32, utf8_factor: u32)
    requires
        item.desc.data_type matches Ok(data_type) && !Columns::is_long(data_type),
        item.desc.data_size matches Ok(size) && size * utf8_factor > u32::MAX,
    ensures
        Columns::failure(item, max_long_fetch_size, utf8_factor) == Some(size_too_large()),
{
}

/// Text that fits the memory of the buffer is fetched whole. Text that does
/// not is cut to the memory, never written beyond it, and the indicator says
/// so: with the full length where an indicator can hold it, and with the
/// oversize mark where not.
pub proof fn lemma_text_fetched(before: Column, data: Vec<u8>, after: Column)
    requires
        before.buf is Text,
        Column::fetched(before, Fetched::Bytes(data), after),
    ensures
        after.buf is Text,
        after.buf->Text_0.allocated() == before.buf->Text_0.allocated(),
        after.buf->Text_0.bytes().len() <= before.buf->Text_0.allocated(),
        data@.len() <= before.buf->Text_0.allocated() ==> after.buf->Text_0.bytes() == data@
            && after.ind == oci::OCI_IND_NOTNULL && after.len == data@.len(),
        data@.len() > before.buf->Text_0.allocated() ==> after.buf->Text_0.bytes() == data@.take(
            before.buf->Text_0.allocated() as int,
        ) && after.len == before.buf->Text_0.allocated() && (after.ind == oci::OCI_IND_OVERSIZE
            || after.ind > 0),
        data@.len() > before.buf->Text_0.allocated() && data@.len() > i16::MAX ==> after.ind
            == oci::OCI_IND_OVERSIZE,
{
    let full = data@.len();
    if full <= before.buf->Text_0.allocated() {
        assert(data@.take(full as int) == data@);
    }
}

/// The buffer of a column is of the kind that holds the values of the type of
/// the column, whatever the form of its character set.
pub proof fn lemma_buffer_matches_type(
    buf: ColumnBuffer,
    data_type: u16,
    data_size: u32,
    ptr: u64,
    charset_form: u8,
)
    requires
        buf.is_new(data_type, data_size, ptr),
    ensures
        buf.holds_type(ColumnType::of(data_type, charset_form)),
{
}

/// The kind of the buffer of a column stays what it was made: fetching a
/// value and releasing the memory keep it.
pub proof fn lemma_kind_is_fixed(before: Column, value: Fetched, after: Column, released: ColumnBuffer)
    requires
        before.buf.accepts(value),
        Column::fetched(before, value, after),
        ColumnBuffer::released(before.buf, released),
    ensures
        after.buf.sql_type() == before.buf.sql_type(),
        after.buf.kind_name() == before.buf.kind_name(),
        released.sql_type() == before.buf.sql_type(),
{
}

} // verus!
