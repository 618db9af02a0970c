//! Typed column buffers, value conversion rules and session accounting for an
//! Oracle client. The crate makes no driver calls: whatever only the native
//! call interface can do is described to the caller as a request, and its
//! outcome is taken back as a plain value.

pub mod conf;
pub mod desc;
pub mod err;
pub mod lob;
pub mod nvl;
pub mod oci;
pub mod pool;
pub mod rowid;
pub mod stmt;
pub mod types;

pub use err::Error;
pub use lob::{BFile, BLOB, CLOB};
pub use nvl::Nvl;
pub use pool::session::{Connection, SessionPool};
pub use rowid::RowID;
pub use stmt::args::{Params, SqlType, ToSql, ToSqlOut};
pub use stmt::cols::{
    Column, ColumnBuffer, ColumnInfo, ColumnSource, ColumnType, Columns, Fetched, ParamDesc,
};
pub use stmt::cursor::Cursor;
pub use stmt::fromsql::{FromSql, Reply, Request};
pub use types::date::Date;
pub use types::interval::{IntervalDS, IntervalYM};
pub use types::number::{BinaryDouble, BinaryFloat, Number};
pub use types::timestamp::{Timestamp, TimestampLTZ, TimestampTZ};
pub use types::varchar::Varchar;
