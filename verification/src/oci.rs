//! Codes of the native call interface: wire types, character set forms,
//! indicator values, descriptor types and the mode flags of the session pool.

use vstd::prelude::*;

verus! {

// Wire types of columns and binds.
pub const SQLT_CHR: u16 = 1;
pub const SQLT_NUM: u16 = 2;
pub const SQLT_INT: u16 = 3;
pub const SQLT_VNU: u16 = 6;
pub const SQLT_LNG: u16 = 8;
pub const SQLT_DAT: u16 = 12;
pub const SQLT_BFLOAT: u16 = 21;
pub const SQLT_BDOUBLE: u16 = 22;
pub const SQLT_BIN: u16 = 23;
pub const SQLT_LBI: u16 = 24;
pub const SQLT_LVC: u16 = 94;
pub const SQLT_LVB: u16 = 95;
pub const SQLT_AFC: u16 = 96;
pub const SQLT_IBFLOAT: u16 = 100;
pub const SQLT_IBDOUBLE: u16 = 101;
pub const SQLT_RDD: u16 = 104;
pub const SQLT_CLOB: u16 = 112;
pub const SQLT_BLOB: u16 = 113;
pub const SQLT_BFILE: u16 = 114;
pub const SQLT_RSET: u16 = 116;
pub const SQLT_ODT: u16 = 156;
pub const SQLT_TIMESTAMP: u16 = 187;
pub const SQLT_TIMESTAMP_TZ: u16 = 188;
pub const SQLT_INTERVAL_YM: u16 = 189;
pub const SQLT_INTERVAL_DS: u16 = 190;
pub const SQLT_TIMESTAMP_LTZ: u16 = 232;

/// Character set form of the national character set.
pub const SQLCS_NCHAR: u8 = 2;

/// Indicator of a NULL value.
pub const OCI_IND_NULL: i16 = -1;
/// Indicator of a value that arrived whole.
pub const OCI_IND_NOTNULL: i16 = 0;
/// Indicator of a value cut short whose full length does not fit an indicator.
pub const OCI_IND_OVERSIZE: i16 = -2;

// Column properties.
pub const OCI_ATTR_COL_PROPERTY_IS_IDENTITY: u8 = 0x01;
pub const OCI_ATTR_COL_PROPERTY_IS_GEN_ALWAYS: u8 = 0x02;
pub const OCI_ATTR_COL_PROPERTY_IS_GEN_BY_DEF_ON_NULL: u8 = 0x04;

// Handle and descriptor types.
pub const OCI_HTYPE_STMT: u32 = 4;
pub const OCI_DTYPE_LOB: u32 = 50;
pub const OCI_DTYPE_ROWID: u32 = 54;
pub const OCI_DTYPE_FILE: u32 = 56;
pub const OCI_DTYPE_INTERVAL_YM: u32 = 62;
pub const OCI_DTYPE_INTERVAL_DS: u32 = 63;
pub const OCI_DTYPE_TIMESTAMP: u32 = 68;
pub const OCI_DTYPE_TIMESTAMP_TZ: u32 = 69;
pub const OCI_DTYPE_TIMESTAMP_LTZ: u32 = 70;

// Session pool creation modes.
pub const OCI_SPC_HOMOGENEOUS: u32 = 0x0002;
pub const OCI_SPC_STMTCACHE: u32 = 0x0004;

// Session acquisition modes.
pub const OCI_SESSGET_SPOOL: u32 = 0x0001;
pub const OCI_SESSGET_PURITY_SELF: u32 = 0x0080;

/// Error code that the call interface reports for an internal error.
pub const OCI_INTERNAL_ERROR: i32 = 21500;

/// Bytes in the native form of a NUMBER.
pub const OCI_NUMBER_SIZE: usize = 22;

/// Bytes that the native form of a DATE occupies.
pub const OCI_DATE_SIZE: usize = 8;

/// Bytes of the length that precedes the data of a long varying buffer.
pub const LENGTH_PREFIX_SIZE: usize = 4;

} // verus!
