use sibyl::oci;
use sibyl::stmt::fromsql::{DATE_FORMAT, NUMBER_FORMAT, TIMESTAMP_FORMAT, TIMESTAMP_TZ_FORMAT};
use sibyl::types::date::OCIDate;
use sibyl::types::number::OCINumber;
use sibyl::{
    BFile, BinaryDouble, BinaryFloat, Column, ColumnBuffer, Cursor, Date, Error, Fetched, FromSql,
    IntervalDS, IntervalYM, Number, ParamDesc, Reply, Request, RowID, Timestamp, TimestampLTZ,
    TimestampTZ, Varchar, BLOB, CLOB,
};

fn desc(data_type: u16) -> ParamDesc {
    ParamDesc {
        invisible: Ok(0),
        nullable: Ok(1),
        col_properties: Ok(0),
        name: Ok("C".to_string()),
        data_size: Ok(30),
        char_size: Ok(30),
        precision: Ok(0),
        scale: Ok(0),
        data_type: Ok(data_type),
        charset_form: Ok(1),
        named_type: Ok(String::new()),
        schema_name: Ok(String::new()),
    }
}

fn column(data_type: u16, ptr: u64) -> Column {
    Column::new(ColumnBuffer::new(data_type, 30, Ok(ptr)).unwrap(), desc(data_type))
}

fn fetched(data_type: u16, ptr: u64, value: Fetched) -> Column {
    let mut col = column(data_type, ptr);
    col.fetch(value).unwrap();
    col
}

fn text(bytes: &[u8]) -> Column {
    fetched(oci::SQLT_CHR, 0, Fetched::Bytes(bytes.to_vec()))
}

fn number() -> (Column, OCINumber) {
    let mut bytes = [0u8; 22];
    bytes[0] = 2;
    bytes[1] = 193;
    bytes[2] = 43;
    let num = OCINumber { bytes };
    (fetched(oci::SQLT_NUM, 0, Fetched::Number(num)), num)
}

fn failure(msg: &str) -> Error {
    Error::Interface(msg.to_string())
}

fn mismatch(found: &str, wanted: &str) -> Error {
    Error::Interface(format!("cannot convert {} into {}", found, wanted))
}

fn refused(col: &Column, wanted: &str) -> Error {
    mismatch(col.buf.kind(), wanted)
}

const ALL_TYPES: [u16; 16] = [
    oci::SQLT_CHR,
    oci::SQLT_CLOB,
    oci::SQLT_BIN,
    oci::SQLT_BLOB,
    oci::SQLT_BFILE,
    oci::SQLT_NUM,
    oci::SQLT_DAT,
    oci::SQLT_TIMESTAMP,
    oci::SQLT_TIMESTAMP_TZ,
    oci::SQLT_TIMESTAMP_LTZ,
    oci::SQLT_INTERVAL_YM,
    oci::SQLT_INTERVAL_DS,
    oci::SQLT_IBFLOAT,
    oci::SQLT_IBDOUBLE,
    oci::SQLT_RDD,
    oci::SQLT_RSET,
];

fn ready(data_type: u16) -> Column {
    let mut col = column(data_type, 0x500);
    let value = match &col.buf {
        ColumnBuffer::Text(_) | ColumnBuffer::Binary(_) => Fetched::Bytes(b"abc".to_vec()),
        ColumnBuffer::Number(_) => Fetched::Number(OCINumber { bytes: [1; 22] }),
        ColumnBuffer::Date(_) => Fetched::Date(OCIDate { year: 2000, month: 1, day: 2, hour: 3, min: 4, sec: 5 }),
        ColumnBuffer::Float(_) => Fetched::Float(9),
        ColumnBuffer::Double(_) => Fetched::Double(9),
        _ => Fetched::Descriptor,
    };
    col.fetch(value).unwrap();
    col
}

#[test]
fn formats_of_text() {
    assert_eq!(NUMBER_FORMAT, "TM");
    assert_eq!(DATE_FORMAT, "YYYY-MM-DD HH24:MI:SS");
    assert_eq!(TIMESTAMP_FORMAT, "YYYY-MM-DD HH24:MI:SSXFF");
    assert_eq!(TIMESTAMP_TZ_FORMAT, "YYYY-MM-DD HH24:MI:SSXFF TZH:TZM");
    let num = OCINumber { bytes: [0; 22] };
    let date = OCIDate { year: 0, month: 0, day: 0, hour: 0, min: 0, sec: 0 };
    assert_eq!(Request::NumberToText { num }.format(), Some("TM"));
    assert_eq!(Request::DateToText { date }.format(), Some("YYYY-MM-DD HH24:MI:SS"));
    assert_eq!(
        Request::TimestampToText { ts: 1, zoned: false, fsprec: 3 }.format(),
        Some("YYYY-MM-DD HH24:MI:SSXFF")
    );
    assert_eq!(
        Request::TimestampToText { ts: 1, zoned: true, fsprec: 3 }.format(),
        Some("YYYY-MM-DD HH24:MI:SSXFF TZH:TZM")
    );
    assert_eq!(Request::Nothing.format(), None);
    assert_eq!(Request::BinaryToText.format(), None);
    assert_eq!(Request::RowidToText { rowid: 1 }.format(), None);
    assert_eq!(Request::IntervalToText { interval: 1, lfprec: 4, fsprec: 3 }.format(), None);
}

#[test]
fn string_from_text() {
    let mut col = text(b"Hello, World!");
    assert_eq!(String::request(&col), Ok(Request::Nothing));
    assert_eq!(String::value(&mut col, Reply::Nothing), Ok("Hello, World!".to_string()));
    assert_eq!(String::value(&mut col, Reply::Text("ignored".to_string())), Ok("Hello, World!".to_string()));
    let mut wide = text("\u{1F6B2}\u{1F6E0}".as_bytes());
    assert_eq!(String::value(&mut wide, Reply::Nothing), Ok("\u{1F6B2}\u{1F6E0}".to_string()));
    let mut broken = text(&[b'a', 0xFF, b'b']);
    assert_eq!(String::value(&mut broken, Reply::Nothing), Ok("a\u{FFFD}b".to_string()));
}

#[test]
fn string_requests() {
    let (num_col, num) = number();
    assert_eq!(String::request(&num_col), Ok(Request::NumberToText { num }));
    let date = OCIDate { year: 1969, month: 7, day: 16, hour: 13, min: 32, sec: 0 };
    assert_eq!(
        String::request(&fetched(oci::SQLT_DAT, 0, Fetched::Date(date))),
        Ok(Request::DateToText { date })
    );
    assert_eq!(
        String::request(&fetched(oci::SQLT_TIMESTAMP, 0x10, Fetched::Descriptor)),
        Ok(Request::TimestampToText { ts: 0x10, zoned: false, fsprec: 3 })
    );
    assert_eq!(
        String::request(&fetched(oci::SQLT_TIMESTAMP_TZ, 0x11, Fetched::Descriptor)),
        Ok(Request::TimestampToText { ts: 0x11, zoned: true, fsprec: 3 })
    );
    assert_eq!(
        String::request(&fetched(oci::SQLT_TIMESTAMP_LTZ, 0x12, Fetched::Descriptor)),
        Ok(Request::TimestampToText { ts: 0x12, zoned: true, fsprec: 3 })
    );
    assert_eq!(
        String::request(&fetched(oci::SQLT_INTERVAL_YM, 0x13, Fetched::Descriptor)),
        Ok(Request::IntervalToText { interval: 0x13, lfprec: 4, fsprec: 3 })
    );
    assert_eq!(
        String::request(&fetched(oci::SQLT_INTERVAL_DS, 0x14, Fetched::Descriptor)),
        Ok(Request::IntervalToText { interval: 0x14, lfprec: 9, fsprec: 5 })
    );
    assert_eq!(
        String::request(&fetched(oci::SQLT_IBFLOAT, 0, Fetched::Float(7))),
        Ok(Request::FloatToText { bits: 7 })
    );
    assert_eq!(
        String::request(&fetched(oci::SQLT_IBDOUBLE, 0, Fetched::Double(8))),
        Ok(Request::DoubleToText { bits: 8 })
    );
    assert_eq!(
        String::request(&fetched(oci::SQLT_RDD, 0x15, Fetched::Descriptor)),
        Ok(Request::RowidToText { rowid: 0x15 })
    );
    assert_eq!(String::request(&ready(oci::SQLT_BIN)), Ok(Request::BinaryToText));
    assert_eq!(String::request(&ready(oci::SQLT_LBI)), Ok(Request::BinaryToText));
    for (data_type, kind) in [
        (oci::SQLT_CLOB, "CLOB"),
        (oci::SQLT_BLOB, "BLOB"),
        (oci::SQLT_BFILE, "BFile"),
        (oci::SQLT_RSET, "Cursor"),
    ] {
        assert_eq!(String::request(&ready(data_type)), Err(mismatch(kind, "String")));
        assert_eq!(
            String::value(&mut ready(data_type), Reply::Text("text".to_string())),
            Err(mismatch(kind, "String"))
        );
    }
}

#[test]
fn string_from_the_reply() {
    for data_type in [
        oci::SQLT_NUM,
        oci::SQLT_DAT,
        oci::SQLT_TIMESTAMP,
        oci::SQLT_TIMESTAMP_TZ,
        oci::SQLT_TIMESTAMP_LTZ,
        oci::SQLT_INTERVAL_YM,
        oci::SQLT_INTERVAL_DS,
        oci::SQLT_IBFLOAT,
        oci::SQLT_IBDOUBLE,
        oci::SQLT_RDD,
        oci::SQLT_BIN,
    ] {
        let mut col = ready(data_type);
        assert_eq!(String::value(&mut col, Reply::Text("42".to_string())), Ok("42".to_string()));
        let txt = Varchar::value(&mut col, Reply::Text("42".to_string())).ok().unwrap();
        assert_eq!(txt.as_str(), "42");
        assert_eq!(
            String::value(&mut col, Reply::Failed(Error::Oracle(1481, "invalid number format model".to_string()))),
            Err(Error::Oracle(1481, "invalid number format model".to_string()))
        );
        assert_eq!(String::value(&mut col, Reply::Nothing), Err(mismatch("Nothing", "String")));
        assert_eq!(String::value(&mut col, Reply::Int(1)), Err(mismatch("Int", "String")));
    }
}

#[test]
fn binary_data_as_text() {
    let mut col = fetched(oci::SQLT_BIN, 0, Fetched::Bytes(b"abc".to_vec()));
    assert_eq!(String::request(&col), Ok(Request::BinaryToText));
    assert_eq!(Varchar::request(&col), Ok(Request::BinaryToText));
    assert_eq!(String::value(&mut col, Reply::Text("616263".to_string())), Ok("616263".to_string()));
    assert_eq!(String::value(&mut col, Reply::Nothing), Err(mismatch("Nothing", "String")));
    assert_eq!(<&[u8]>::value(&mut col, Reply::Nothing), Ok(&b"abc"[..]));
}

#[test]
fn option_passes_on_what_the_type_returns() {
    let mut col = fetched(oci::SQLT_RDD, 0xA0, Fetched::Descriptor);
    let e = Error::Oracle(1019, "unable to allocate memory in the user side".to_string());
    assert_eq!(<Option<RowID>>::value(&mut col, Reply::Failed(e.clone())), Err(e));
    let rowid = <Option<RowID>>::value(&mut col, Reply::Descriptor(0xA1)).unwrap().unwrap();
    assert_eq!(rowid.0.get(), 0xA0);
    assert!(matches!(&col.buf, ColumnBuffer::Rowid(d) if d.get() == 0xA1 && !d.is_initialized()));
    assert_eq!(<Option<RowID>>::value(&mut col, Reply::Descriptor(0xA2)), Err(failure("already consumed")));
    assert_eq!(<Option<Date>>::value(&mut col, Reply::Nothing), Err(mismatch("Rowid", "Date")));
}

#[test]
fn rowid_as_text_is_not_consumed() {
    let mut col = fetched(oci::SQLT_RDD, 0x15, Fetched::Descriptor);
    assert_eq!(
        String::value(&mut col, Reply::Text("AAAE5oAAFAAAABSABD".to_string())),
        Ok("AAAE5oAAFAAAABSABD".to_string())
    );
    let rowid = RowID::value(&mut col, Reply::Descriptor(0x16)).unwrap();
    assert_eq!(rowid.0.get(), 0x15);
    assert!(rowid.is_initialized());
}

#[test]
fn null_has_no_value() {
    for data_type in ALL_TYPES {
        let mut col = ready(data_type);
        col.fetch(Fetched::Null).unwrap();
        let null = |wanted: &str| mismatch("NULL", wanted);
        assert_eq!(String::request(&col), Err(null("String")));
        assert_eq!(String::value(&mut col, Reply::Text("x".to_string())), Err(null("String")));
        assert_eq!(Varchar::request(&col), Err(null("Varchar")));
        assert!(matches!(Varchar::value(&mut col, Reply::Text("x".to_string())), Err(e) if e == null("Varchar")));
        assert_eq!(<&str>::request(&col), Err(null("&str")));
        assert_eq!(<&str>::value(&mut col, Reply::Nothing), Err(null("&str")));
        assert_eq!(<&[u8]>::request(&col), Err(null("&[u8]")));
        assert_eq!(<&[u8]>::value(&mut col, Reply::Nothing), Err(null("&[u8]")));
        assert_eq!(i32::request(&col), Err(null("integer")));
        assert_eq!(i32::value(&mut col, Reply::Int(1)), Err(null("integer")));
        assert_eq!(u64::value(&mut col, Reply::Int(1)), Err(null("integer")));
        assert_eq!(BinaryFloat::request(&col), Err(null("BinaryFloat")));
        assert_eq!(BinaryFloat::value(&mut col, Reply::Float(1)), Err(null("BinaryFloat")));
        assert_eq!(BinaryDouble::request(&col), Err(null("BinaryDouble")));
        assert_eq!(BinaryDouble::value(&mut col, Reply::Double(1)), Err(null("BinaryDouble")));
        assert_eq!(Number::request(&col), Err(null("Number")));
        assert_eq!(Number::value(&mut col, Reply::Number(OCINumber { bytes: [0; 22] })), Err(null("Number")));
        assert_eq!(Date::request(&col), Err(null("Date")));
        assert_eq!(Date::value(&mut col, Reply::Nothing), Err(null("Date")));
        assert_eq!(Timestamp::request(&col), Err(null("Timestamp")));
        assert_eq!(Timestamp::value(&mut col, Reply::Descriptor(1)), Err(null("Timestamp")));
        assert_eq!(TimestampTZ::request(&col), Err(null("TimestampTZ")));
        assert_eq!(TimestampTZ::value(&mut col, Reply::Descriptor(1)), Err(null("TimestampTZ")));
        assert_eq!(TimestampLTZ::request(&col), Err(null("TimestampLTZ")));
        assert_eq!(TimestampLTZ::value(&mut col, Reply::Descriptor(1)), Err(null("TimestampLTZ")));
        assert_eq!(IntervalYM::request(&col), Err(null("IntervalYM")));
        assert_eq!(IntervalYM::value(&mut col, Reply::Descriptor(1)), Err(null("IntervalYM")));
        assert_eq!(IntervalDS::request(&col), Err(null("IntervalDS")));
        assert_eq!(IntervalDS::value(&mut col, Reply::Descriptor(1)), Err(null("IntervalDS")));
        assert_eq!(RowID::request(&col), Err(null("RowID")));
        assert_eq!(RowID::value(&mut col, Reply::Descriptor(1)), Err(null("RowID")));
        assert_eq!(Cursor::request(&col), Err(null("Cursor")));
        assert_eq!(Cursor::value(&mut col, Reply::Descriptor(1)), Err(null("Cursor")));
        assert_eq!(CLOB::request(&col), Err(null("CLOB")));
        assert_eq!(CLOB::value(&mut col, Reply::Descriptor(1)), Err(null("CLOB")));
        assert_eq!(BLOB::request(&col), Err(null("BLOB")));
        assert_eq!(BLOB::value(&mut col, Reply::Descriptor(1)), Err(null("BLOB")));
        assert_eq!(BFile::request(&col), Err(null("BFile")));
        assert_eq!(BFile::value(&mut col, Reply::Descriptor(1)), Err(null("BFile")));
        assert!(col.is_null());
    }
    assert_eq!(mismatch("NULL", "String"), failure("cannot convert NULL into String"));
}

#[test]
fn null_as_an_option_is_none() {
    for data_type in ALL_TYPES {
        let mut col = ready(data_type);
        col.fetch(Fetched::Null).unwrap();
        assert_eq!(<Option<String>>::request(&col), Ok(Request::Nothing));
        assert_eq!(<Option<String>>::value(&mut col, Reply::Nothing), Ok(None));
        assert_eq!(<Option<i32>>::value(&mut col, Reply::Nothing), Ok(None));
        assert_eq!(<Option<&str>>::value(&mut col, Reply::Nothing), Ok(None));
        assert_eq!(<Option<Date>>::value(&mut col, Reply::Nothing), Ok(None));
        assert_eq!(<Option<RowID>>::request(&col), Ok(Request::Nothing));
        assert_eq!(<Option<RowID>>::value(&mut col, Reply::Descriptor(3)), Ok(None));
        assert_eq!(<Option<Cursor>>::value(&mut col, Reply::Descriptor(3)), Ok(None));
        assert_eq!(<Option<BLOB>>::value(&mut col, Reply::Descriptor(3)), Ok(None));
    }
}

#[test]
fn option_of_a_value() {
    let mut col = text(b"area 51");
    assert_eq!(<Option<String>>::request(&col), Ok(Request::Nothing));
    assert_eq!(<Option<String>>::value(&mut col, Reply::Nothing), Ok(Some("area 51".to_string())));
    assert_eq!(<Option<&str>>::value(&mut col, Reply::Nothing), Ok(Some("area 51")));
    assert_eq!(<Option<i32>>::request(&col), Err(mismatch("Text", "integer")));
    assert_eq!(<Option<i32>>::value(&mut col, Reply::Int(1)), Err(failure("cannot convert Text into integer")));
    let (mut num_col, num) = number();
    assert_eq!(
        <Option<i32>>::request(&num_col),
        Ok(Request::NumberToInt { num, size: 4, signed: true })
    );
    assert_eq!(<Option<i32>>::value(&mut num_col, Reply::Int(42)), Ok(Some(42)));
}

#[test]
fn slices_of_text_and_bytes() {
    let mut col = text(b"Text");
    assert_eq!(<&str>::request(&col), Ok(Request::Nothing));
    assert_eq!(<&str>::value(&mut col, Reply::Nothing), Ok("Text"));
    let mut broken = text(&[0xC3]);
    assert_eq!(<&str>::value(&mut broken, Reply::Nothing), Err(mismatch("Text", "&str")));
    let mut empty = text(b"");
    assert_eq!(<&str>::value(&mut empty, Reply::Nothing), Ok(""));

    let mut bin = fetched(oci::SQLT_BIN, 0, Fetched::Bytes(vec![0xFF, 0, 7]));
    assert_eq!(<&[u8]>::request(&bin), Ok(Request::Nothing));
    assert_eq!(<&[u8]>::value(&mut bin, Reply::Nothing), Ok(&[0xFFu8, 0, 7][..]));

    for data_type in ALL_TYPES {
        let mut col = ready(data_type);
        let (no_text, no_bytes) = (refused(&col, "&str"), refused(&col, "&[u8]"));
        if data_type != oci::SQLT_CHR {
            assert_eq!(<&str>::request(&col), Err(no_text.clone()));
            assert_eq!(<&str>::value(&mut col, Reply::Text("x".to_string())), Err(no_text));
        }
        if data_type != oci::SQLT_BIN {
            assert_eq!(<&[u8]>::request(&col), Err(no_bytes.clone()));
            assert_eq!(<&[u8]>::value(&mut col, Reply::Nothing), Err(no_bytes));
        }
    }
}

#[test]
fn varchar_from_columns() {
    let mut col = text(b"Hello, World!");
    let txt = Varchar::value(&mut col, Reply::Nothing).ok().unwrap();
    assert_eq!(txt.as_str(), "Hello, World!");
    assert_eq!(txt.len(), 13);
    let mut broken = text(&[0xFF]);
    assert!(matches!(Varchar::value(&mut broken, Reply::Nothing), Err(e) if e == mismatch("Text", "Varchar")));
    let (mut num_col, num) = number();
    assert_eq!(Varchar::request(&num_col), Ok(Request::NumberToText { num }));
    let txt = Varchar::value(&mut num_col, Reply::Text("42".to_string())).ok().unwrap();
    assert_eq!(txt.as_str(), "42");
    assert!(matches!(Varchar::value(&mut num_col, Reply::Nothing), Err(e) if e == mismatch("Nothing", "Varchar")));
    assert!(matches!(
        Varchar::value(&mut ready(oci::SQLT_BLOB), Reply::Text("x".to_string())),
        Err(e) if e == mismatch("BLOB", "Varchar")
    ));
    assert_eq!(Varchar::request(&ready(oci::SQLT_BLOB)), Err(mismatch("BLOB", "Varchar")));
}

#[test]
fn integers_from_numbers() {
    let (mut col, num) = number();
    assert_eq!(i8::request(&col), Ok(Request::NumberToInt { num, size: 1, signed: true }));
    assert_eq!(i16::request(&col), Ok(Request::NumberToInt { num, size: 2, signed: true }));
    assert_eq!(i32::request(&col), Ok(Request::NumberToInt { num, size: 4, signed: true }));
    assert_eq!(i64::request(&col), Ok(Request::NumberToInt { num, size: 8, signed: true }));
    assert_eq!(u8::request(&col), Ok(Request::NumberToInt { num, size: 1, signed: false }));
    assert_eq!(u16::request(&col), Ok(Request::NumberToInt { num, size: 2, signed: false }));
    assert_eq!(u32::request(&col), Ok(Request::NumberToInt { num, size: 4, signed: false }));
    assert_eq!(u64::request(&col), Ok(Request::NumberToInt { num, size: 8, signed: false }));
    let word = std::mem::size_of::<usize>() as u32;
    assert_eq!(isize::request(&col), Ok(Request::NumberToInt { num, size: word, signed: true }));
    assert_eq!(usize::request(&col), Ok(Request::NumberToInt { num, size: word, signed: false }));
    assert_eq!(i32::value(&mut col, Reply::Int(42)), Ok(42));
    assert_eq!(i32::value(&mut col, Reply::Int(-2147483648)), Ok(i32::MIN));
    assert_eq!(i32::value(&mut col, Reply::Int(2147483647)), Ok(i32::MAX));
    assert_eq!(i32::value(&mut col, Reply::Int(2147483648)), Err(mismatch("Int", "integer")));
    assert_eq!(i32::value(&mut col, Reply::Int(-2147483649)), Err(mismatch("Int", "integer")));
    assert_eq!(i8::value(&mut col, Reply::Int(-128)), Ok(-128));
    assert_eq!(i8::value(&mut col, Reply::Int(128)), Err(mismatch("Int", "integer")));
    assert_eq!(i16::value(&mut col, Reply::Int(32767)), Ok(32767));
    assert_eq!(i16::value(&mut col, Reply::Int(-32769)), Err(mismatch("Int", "integer")));
    assert_eq!(u8::value(&mut col, Reply::Int(255)), Ok(255));
    assert_eq!(u8::value(&mut col, Reply::Int(256)), Err(mismatch("Int", "integer")));
    assert_eq!(u16::value(&mut col, Reply::Int(65535)), Ok(65535));
    assert_eq!(u16::value(&mut col, Reply::Int(-1)), Err(mismatch("Int", "integer")));
    assert_eq!(isize::value(&mut col, Reply::Int(-7)), Ok(-7));
    assert_eq!(isize::value(&mut col, Reply::Int(isize::MAX as i128 + 1)), Err(mismatch("Int", "integer")));
    assert_eq!(usize::value(&mut col, Reply::Int(usize::MAX as i128)), Ok(usize::MAX));
    assert_eq!(usize::value(&mut col, Reply::Int(-1)), Err(mismatch("Int", "integer")));
    assert_eq!(i64::value(&mut col, Reply::Int(i64::MIN as i128)), Ok(i64::MIN));
    assert_eq!(i64::value(&mut col, Reply::Int(i64::MAX as i128 + 1)), Err(mismatch("Int", "integer")));
    assert_eq!(u32::value(&mut col, Reply::Int(103)), Ok(103));
    assert_eq!(u32::value(&mut col, Reply::Int(-1)), Err(mismatch("Int", "integer")));
    assert_eq!(u32::value(&mut col, Reply::Int(4294967296)), Err(mismatch("Int", "integer")));
    assert_eq!(u64::value(&mut col, Reply::Int(u64::MAX as i128)), Ok(u64::MAX));
    assert_eq!(u64::value(&mut col, Reply::Int(u64::MAX as i128 + 1)), Err(mismatch("Int", "integer")));
    assert_eq!(
        i32::value(&mut col, Reply::Failed(Error::Oracle(22053, "overflow error".to_string()))),
        Err(Error::Oracle(22053, "overflow error".to_string()))
    );
    assert_eq!(i32::value(&mut col, Reply::Text("42".to_string())), Err(mismatch("Text", "integer")));
    assert_eq!(i32::value(&mut col, Reply::Nothing), Err(mismatch("Nothing", "integer")));
}

#[test]
fn integers_from_other_numbers() {
    let mut flt = fetched(oci::SQLT_IBFLOAT, 0, Fetched::Float(7));
    assert_eq!(i32::request(&flt), Ok(Request::FloatToInt { bits: 7, size: 4, signed: true }));
    assert_eq!(i32::value(&mut flt, Reply::Int(3)), Ok(3));
    let mut dbl = fetched(oci::SQLT_IBDOUBLE, 0, Fetched::Double(8));
    assert_eq!(u64::request(&dbl), Ok(Request::DoubleToInt { bits: 8, size: 8, signed: false }));
    assert_eq!(u64::value(&mut dbl, Reply::Int(4)), Ok(4));
    let mut ym = fetched(oci::SQLT_INTERVAL_YM, 0x20, Fetched::Descriptor);
    assert_eq!(i16::request(&ym), Ok(Request::IntervalToInt { interval: 0x20, size: 2, signed: true }));
    assert_eq!(i16::value(&mut ym, Reply::Int(14)), Ok(14));
    let mut ds = fetched(oci::SQLT_INTERVAL_DS, 0x21, Fetched::Descriptor);
    assert_eq!(i64::request(&ds), Ok(Request::IntervalToInt { interval: 0x21, size: 8, signed: true }));
    assert_eq!(i64::value(&mut ds, Reply::Int(-86400)), Ok(-86400));
    for data_type in ALL_TYPES {
        let mut col = ready(data_type);
        let no = refused(&col, "integer");
        if ![oci::SQLT_NUM, oci::SQLT_IBFLOAT, oci::SQLT_IBDOUBLE, oci::SQLT_INTERVAL_YM, oci::SQLT_INTERVAL_DS]
            .contains(&data_type)
        {
            assert_eq!(i32::request(&col), Err(no.clone()));
            assert_eq!(i64::value(&mut col, Reply::Int(1)), Err(no));
        } else {
            assert!(i32::request(&col).is_ok());
            assert_eq!(i64::value(&mut col, Reply::Int(1)), Ok(1));
        }
    }
}

#[test]
fn floats_from_columns() {
    let (mut num_col, num) = number();
    let one = 1.0f32.to_bits();
    assert_eq!(BinaryFloat::request(&num_col), Ok(Request::NumberToFloat { num }));
    assert_eq!(BinaryFloat::value(&mut num_col, Reply::Float(one)), Ok(BinaryFloat { bits: one }));
    assert_eq!(BinaryFloat::value(&mut num_col, Reply::Double(1)), Err(mismatch("Double", "BinaryFloat")));

    let mut flt = fetched(oci::SQLT_IBFLOAT, 0, Fetched::Float(one));
    assert_eq!(BinaryFloat::request(&flt), Ok(Request::Nothing));
    assert_eq!(BinaryFloat::value(&mut flt, Reply::Nothing), Ok(BinaryFloat { bits: one }));
    assert_eq!(BinaryFloat::value(&mut flt, Reply::Float(0)), Ok(BinaryFloat { bits: one }));

    let two = 2.0f64.to_bits();
    let mut dbl = fetched(oci::SQLT_IBDOUBLE, 0, Fetched::Double(two));
    assert_eq!(BinaryFloat::request(&dbl), Ok(Request::DoubleToFloat { bits: two }));
    assert_eq!(
        BinaryFloat::value(&mut dbl, Reply::Float(2.0f32.to_bits())),
        Ok(BinaryFloat { bits: 2.0f32.to_bits() })
    );
    assert_eq!(
        BinaryFloat::request(&fetched(oci::SQLT_INTERVAL_YM, 0x20, Fetched::Descriptor)),
        Ok(Request::IntervalToFloat { interval: 0x20 })
    );
    assert_eq!(
        BinaryFloat::request(&fetched(oci::SQLT_INTERVAL_DS, 0x21, Fetched::Descriptor)),
        Ok(Request::IntervalToFloat { interval: 0x21 })
    );
    assert_eq!(
        BinaryFloat::value(&mut fetched(oci::SQLT_INTERVAL_DS, 0x21, Fetched::Descriptor), Reply::Float(one)),
        Ok(BinaryFloat { bits: one })
    );
    assert_eq!(
        BinaryFloat::value(
            &mut num_col,
            Reply::Failed(Error::Oracle(22054, "underflow error".to_string()))
        ),
        Err(Error::Oracle(22054, "underflow error".to_string()))
    );
    for data_type in [
        oci::SQLT_CHR,
        oci::SQLT_CLOB,
        oci::SQLT_BIN,
        oci::SQLT_BLOB,
        oci::SQLT_BFILE,
        oci::SQLT_DAT,
        oci::SQLT_TIMESTAMP,
        oci::SQLT_TIMESTAMP_TZ,
        oci::SQLT_TIMESTAMP_LTZ,
        oci::SQLT_RDD,
        oci::SQLT_RSET,
    ] {
        let mut col = ready(data_type);
        assert_eq!(BinaryFloat::request(&col), Err(refused(&col, "BinaryFloat")));
        assert_eq!(BinaryFloat::value(&mut col, Reply::Float(1)), Err(refused(&ready(data_type), "BinaryFloat")));
        assert_eq!(BinaryDouble::request(&col), Err(refused(&col, "BinaryDouble")));
        assert_eq!(BinaryDouble::value(&mut col, Reply::Double(1)), Err(refused(&ready(data_type), "BinaryDouble")));
        assert_eq!(Number::request(&col), Err(refused(&col, "Number")));
        assert_eq!(
            Number::value(&mut col, Reply::Number(OCINumber { bytes: [0; 22] })),
            Err(refused(&ready(data_type), "Number"))
        );
    }
}

#[test]
fn doubles_from_columns() {
    let (mut num_col, num) = number();
    let two = 2.0f64.to_bits();
    assert_eq!(BinaryDouble::request(&num_col), Ok(Request::NumberToDouble { num }));
    assert_eq!(BinaryDouble::value(&mut num_col, Reply::Double(two)), Ok(BinaryDouble { bits: two }));
    assert_eq!(BinaryDouble::value(&mut num_col, Reply::Float(1)), Err(mismatch("Float", "BinaryDouble")));

    let mut dbl = fetched(oci::SQLT_IBDOUBLE, 0, Fetched::Double(two));
    assert_eq!(BinaryDouble::request(&dbl), Ok(Request::Nothing));
    assert_eq!(BinaryDouble::value(&mut dbl, Reply::Nothing), Ok(BinaryDouble { bits: two }));

    let one = 1.0f32.to_bits();
    let mut flt = fetched(oci::SQLT_IBFLOAT, 0, Fetched::Float(one));
    assert_eq!(BinaryDouble::request(&flt), Ok(Request::FloatToDouble { bits: one }));
    assert_eq!(
        BinaryDouble::value(&mut flt, Reply::Double(1.0f64.to_bits())),
        Ok(BinaryDouble { bits: 1.0f64.to_bits() })
    );
    assert_eq!(
        BinaryDouble::request(&fetched(oci::SQLT_INTERVAL_YM, 0x20, Fetched::Descriptor)),
        Ok(Request::IntervalToDouble { interval: 0x20 })
    );
    assert_eq!(
        BinaryDouble::request(&fetched(oci::SQLT_INTERVAL_DS, 0x21, Fetched::Descriptor)),
        Ok(Request::IntervalToDouble { interval: 0x21 })
    );
}

#[test]
fn numbers_from_columns() {
    let (mut num_col, num) = number();
    assert_eq!(Number::request(&num_col), Ok(Request::Nothing));
    assert_eq!(Number::value(&mut num_col, Reply::Nothing), Ok(Number { num }));
    let other = OCINumber { bytes: [3; 22] };
    let mut flt = fetched(oci::SQLT_IBFLOAT, 0, Fetched::Float(5));
    assert_eq!(Number::request(&flt), Ok(Request::FloatToNumber { bits: 5 }));
    assert_eq!(Number::value(&mut flt, Reply::Number(other)), Ok(Number { num: other }));
    assert_eq!(Number::value(&mut flt, Reply::Nothing), Err(mismatch("Nothing", "Number")));
    let dbl = fetched(oci::SQLT_IBDOUBLE, 0, Fetched::Double(6));
    assert_eq!(Number::request(&dbl), Ok(Request::DoubleToNumber { bits: 6 }));
    assert_eq!(
        Number::request(&fetched(oci::SQLT_INTERVAL_YM, 0x20, Fetched::Descriptor)),
        Ok(Request::IntervalToNumber { interval: 0x20 })
    );
    let mut ds = fetched(oci::SQLT_INTERVAL_DS, 0x21, Fetched::Descriptor);
    assert_eq!(Number::request(&ds), Ok(Request::IntervalToNumber { interval: 0x21 }));
    assert_eq!(Number::value(&mut ds, Reply::Number(other)), Ok(Number { num: other }));
}

#[test]
fn dates_from_columns() {
    let apollo = OCIDate { year: 1969, month: 7, day: 16, hour: 13, min: 32, sec: 0 };
    let mut col = fetched(oci::SQLT_DAT, 0, Fetched::Date(apollo));
    assert_eq!(Date::request(&col), Ok(Request::Nothing));
    assert_eq!(Date::value(&mut col, Reply::Nothing), Ok(Date { date: apollo }));
    for data_type in ALL_TYPES {
        if data_type != oci::SQLT_DAT {
            let mut col = ready(data_type);
            let no = refused(&col, "Date");
            assert_eq!(Date::request(&col), Err(no.clone()));
            assert_eq!(Date::value(&mut col, Reply::Nothing), Err(no));
        }
    }
}

#[test]
fn timestamps_from_columns() {
    let ts = fetched(oci::SQLT_TIMESTAMP, 0x30, Fetched::Descriptor);
    let tz = fetched(oci::SQLT_TIMESTAMP_TZ, 0x31, Fetched::Descriptor);
    let ltz = fetched(oci::SQLT_TIMESTAMP_LTZ, 0x32, Fetched::Descriptor);
    assert_eq!(Timestamp::request(&ts), Ok(Request::Copy { src: 0x30, dtype: oci::OCI_DTYPE_TIMESTAMP }));
    assert_eq!(
        Timestamp::request(&tz),
        Ok(Request::ConvertTimestamp { src: 0x31, dtype: oci::OCI_DTYPE_TIMESTAMP })
    );
    assert_eq!(
        Timestamp::request(&ltz),
        Ok(Request::ConvertTimestamp { src: 0x32, dtype: oci::OCI_DTYPE_TIMESTAMP })
    );
    assert_eq!(
        TimestampTZ::request(&ts),
        Ok(Request::ConvertTimestamp { src: 0x30, dtype: oci::OCI_DTYPE_TIMESTAMP_TZ })
    );
    assert_eq!(TimestampTZ::request(&tz), Ok(Request::Copy { src: 0x31, dtype: oci::OCI_DTYPE_TIMESTAMP_TZ }));
    assert_eq!(
        TimestampTZ::request(&ltz),
        Ok(Request::ConvertTimestamp { src: 0x32, dtype: oci::OCI_DTYPE_TIMESTAMP_TZ })
    );
    assert_eq!(
        TimestampLTZ::request(&ts),
        Ok(Request::ConvertTimestamp { src: 0x30, dtype: oci::OCI_DTYPE_TIMESTAMP_LTZ })
    );
    assert_eq!(
        TimestampLTZ::request(&tz),
        Ok(Request::ConvertTimestamp { src: 0x31, dtype: oci::OCI_DTYPE_TIMESTAMP_LTZ })
    );
    assert_eq!(TimestampLTZ::request(&ltz), Ok(Request::Copy { src: 0x32, dtype: oci::OCI_DTYPE_TIMESTAMP_LTZ }));

    for data_type in [oci::SQLT_TIMESTAMP, oci::SQLT_TIMESTAMP_TZ, oci::SQLT_TIMESTAMP_LTZ] {
        let mut col = fetched(data_type, 0x30, Fetched::Descriptor);
        let t = Timestamp::value(&mut col, Reply::Descriptor(0x40)).unwrap();
        assert_eq!((t.0.get(), t.0.is_initialized()), (0x40, true));
        let t = TimestampTZ::value(&mut col, Reply::Descriptor(0x41)).unwrap();
        assert_eq!((t.0.get(), t.0.is_initialized()), (0x41, true));
        let t = TimestampLTZ::value(&mut col, Reply::Descriptor(0x42)).unwrap();
        assert_eq!((t.0.get(), t.0.is_initialized()), (0x42, true));
        assert_eq!(Timestamp::value(&mut col, Reply::Nothing), Err(mismatch("Nothing", "Timestamp")));
        assert_eq!(
            TimestampTZ::value(&mut col, Reply::Failed(Error::Oracle(1805, "possible error in date/time operation".to_string()))),
            Err(Error::Oracle(1805, "possible error in date/time operation".to_string()))
        );
        match &col.buf {
            ColumnBuffer::Timestamp(d) | ColumnBuffer::TimestampTZ(d) | ColumnBuffer::TimestampLTZ(d) => {
                assert_eq!((d.get(), d.is_initialized()), (0x30, true))
            }
            _ => panic!("timestamp buffer expected"),
        }
    }
    for data_type in ALL_TYPES {
        if ![oci::SQLT_TIMESTAMP, oci::SQLT_TIMESTAMP_TZ, oci::SQLT_TIMESTAMP_LTZ].contains(&data_type) {
            let mut col = ready(data_type);
            assert_eq!(Timestamp::request(&col), Err(refused(&col, "Timestamp")));
            assert_eq!(TimestampTZ::request(&col), Err(refused(&col, "TimestampTZ")));
            assert_eq!(TimestampLTZ::request(&col), Err(refused(&col, "TimestampLTZ")));
            let no = refused(&col, "Timestamp");
            assert_eq!(Timestamp::value(&mut col, Reply::Descriptor(1)), Err(no));
        }
    }
}

#[test]
fn intervals_from_columns() {
    let mut ym = fetched(oci::SQLT_INTERVAL_YM, 0x50, Fetched::Descriptor);
    let mut ds = fetched(oci::SQLT_INTERVAL_DS, 0x51, Fetched::Descriptor);
    assert_eq!(IntervalYM::request(&ym), Ok(Request::Copy { src: 0x50, dtype: oci::OCI_DTYPE_INTERVAL_YM }));
    assert_eq!(IntervalDS::request(&ds), Ok(Request::Copy { src: 0x51, dtype: oci::OCI_DTYPE_INTERVAL_DS }));
    assert_eq!(IntervalYM::request(&ds), Err(mismatch("IntervalDS", "IntervalYM")));
    assert_eq!(IntervalDS::request(&ym), Err(mismatch("IntervalYM", "IntervalDS")));
    let v = IntervalYM::value(&mut ym, Reply::Descriptor(0x60)).unwrap();
    assert_eq!((v.0.get(), v.0.is_initialized()), (0x60, true));
    let v = IntervalDS::value(&mut ds, Reply::Descriptor(0x61)).unwrap();
    assert_eq!((v.0.get(), v.0.is_initialized()), (0x61, true));
    assert_eq!(IntervalYM::value(&mut ds, Reply::Descriptor(0x60)), Err(mismatch("IntervalDS", "IntervalYM")));
    assert_eq!(IntervalDS::value(&mut ym, Reply::Descriptor(0x60)), Err(mismatch("IntervalYM", "IntervalDS")));
    assert_eq!(
        IntervalDS::value(&mut ds, Reply::Text("+8 03:18:35.00".to_string())),
        Err(mismatch("Text", "IntervalDS"))
    );
}

#[test]
fn from_lob() {
    let mut col = fetched(oci::SQLT_BFILE, 0xB0, Fetched::Descriptor);
    assert_eq!(BFile::request(&col), Ok(Request::NewDescriptor { dtype: oci::OCI_DTYPE_FILE }));
    let lob = BFile::value(&mut col, Reply::Descriptor(0xB1)).expect("first row BFILE locator");
    assert_eq!(lob.0.get(), 0xB0);
    assert!(lob.0.is_initialized());

    col.fetch(Fetched::Descriptor).unwrap();
    let lob = BFile::value(&mut col, Reply::Descriptor(0xB2)).expect("second row BFILE locator");
    assert_eq!(lob.0.get(), 0xB1);
    assert!(lob.0.is_initialized());

    assert_eq!(BFile::request(&col), Err(failure("already consumed")));
    match BFile::value(&mut col, Reply::Descriptor(0xB3)) {
        Ok(_) => panic!("unexpected duplicate LOB locator"),
        Err(Error::Interface(msg)) => assert_eq!(msg, "already consumed"),
        Err(err) => panic!("unexpected error: {:?}", err),
    }
    match &col.buf {
        ColumnBuffer::BFile(d) => assert_eq!((d.get(), d.is_initialized()), (0xB2, false)),
        _ => panic!("locator buffer expected"),
    }
}

#[test]
fn from_rowid() {
    let mut col = fetched(oci::SQLT_RDD, 0xA0, Fetched::Descriptor);
    let strid = String::value(&mut col, Reply::Text("AAAE5oAAFAAAABSABD".to_string())).expect("ROWID as text");
    assert_eq!(strid, "AAAE5oAAFAAAABSABD");
    assert_eq!(RowID::request(&col), Ok(Request::NewDescriptor { dtype: oci::OCI_DTYPE_ROWID }));
    let rowid = RowID::value(&mut col, Reply::Descriptor(0xA1)).expect("ROWID");
    assert_eq!(rowid.0.get(), 0xA0);
    let (mut manager, _) = number();
    let manager_id: u32 = u32::value(&mut manager, Reply::Int(103)).expect("manager ID");
    assert_eq!(manager_id, 103, "employee ID of Alexander Hunold");

    assert_eq!(RowID::request(&col), Err(failure("already consumed")));
    match RowID::value(&mut col, Reply::Descriptor(0xA2)) {
        Ok(_) => panic!("unexpected duplicate ROWID descriptor"),
        Err(Error::Interface(msg)) => assert_eq!(msg, "already consumed"),
        Err(err) => panic!("unexpected error: {:?}", err),
    }
}

#[test]
fn large_objects_and_cursors_are_read_once() {
    let mut clob = fetched(oci::SQLT_CLOB, 0xC0, Fetched::Descriptor);
    assert_eq!(CLOB::request(&clob), Ok(Request::NewDescriptor { dtype: oci::OCI_DTYPE_LOB }));
    assert_eq!(CLOB::value(&mut clob, Reply::Descriptor(0xC1)).unwrap().0.get(), 0xC0);
    assert_eq!(CLOB::request(&clob), Err(failure("already consumed")));
    assert_eq!(CLOB::value(&mut clob, Reply::Descriptor(0xC2)), Err(failure("already consumed")));

    let mut blob = fetched(oci::SQLT_BLOB, 0xD0, Fetched::Descriptor);
    assert_eq!(BLOB::request(&blob), Ok(Request::NewDescriptor { dtype: oci::OCI_DTYPE_LOB }));
    assert_eq!(BLOB::value(&mut blob, Reply::Descriptor(0xD1)).unwrap().0.get(), 0xD0);
    assert_eq!(BLOB::value(&mut blob, Reply::Descriptor(0xD2)), Err(failure("already consumed")));

    let mut cursor = fetched(oci::SQLT_RSET, 0xE0, Fetched::Descriptor);
    assert_eq!(Cursor::request(&cursor), Ok(Request::NewHandle { htype: oci::OCI_HTYPE_STMT }));
    assert_eq!(Cursor::value(&mut cursor, Reply::Descriptor(0xE1)).unwrap().0.get(), 0xE0);
    assert_eq!(Cursor::request(&cursor), Err(failure("already consumed")));
    assert_eq!(Cursor::value(&mut cursor, Reply::Descriptor(0xE2)), Err(failure("already consumed")));

    let mut unread = column(oci::SQLT_RSET, 0xE0);
    assert_eq!(Cursor::value(&mut unread, Reply::Descriptor(0xE1)), Err(failure("already consumed")));
}

#[test]
fn a_failed_allocation_leaves_the_descriptor() {
    let mut col = fetched(oci::SQLT_RDD, 0xA0, Fetched::Descriptor);
    let e = Error::Oracle(1019, "unable to allocate memory in the user side".to_string());
    assert_eq!(RowID::value(&mut col, Reply::Failed(e.clone())), Err(e));
    assert_eq!(RowID::value(&mut col, Reply::Nothing), Err(mismatch("Nothing", "RowID")));
    let rowid = RowID::value(&mut col, Reply::Descriptor(0xA1)).unwrap();
    assert_eq!(rowid.0.get(), 0xA0);
}

#[test]
fn handles_convert_to_their_own_type_only() {
    for data_type in ALL_TYPES {
        let kind = ready(data_type).buf.kind();
        if data_type != oci::SQLT_RDD {
            assert_eq!(RowID::request(&ready(data_type)), Err(mismatch(kind, "RowID")));
            assert_eq!(RowID::value(&mut ready(data_type), Reply::Descriptor(1)), Err(mismatch(kind, "RowID")));
        }
        if data_type != oci::SQLT_RSET {
            assert_eq!(Cursor::request(&ready(data_type)), Err(mismatch(kind, "Cursor")));
            assert_eq!(Cursor::value(&mut ready(data_type), Reply::Descriptor(1)), Err(mismatch(kind, "Cursor")));
        }
        if data_type != oci::SQLT_CLOB {
            assert_eq!(CLOB::request(&ready(data_type)), Err(mismatch(kind, "CLOB")));
            assert_eq!(CLOB::value(&mut ready(data_type), Reply::Descriptor(1)), Err(mismatch(kind, "CLOB")));
        }
        if data_type != oci::SQLT_BLOB {
            assert_eq!(BLOB::request(&ready(data_type)), Err(mismatch(kind, "BLOB")));
            assert_eq!(BLOB::value(&mut ready(data_type), Reply::Descriptor(1)), Err(mismatch(kind, "BLOB")));
        }
        if data_type != oci::SQLT_BFILE {
            assert_eq!(BFile::request(&ready(data_type)), Err(mismatch(kind, "BFile")));
            assert_eq!(BFile::value(&mut ready(data_type), Reply::Descriptor(1)), Err(mismatch(kind, "BFile")));
        }
    }
}

#[test]
fn descriptors_are_taken_once() {
    let mut desc = sibyl::desc::Descriptor::new(0x70);
    assert_eq!(desc.take(0x71), None);
    assert_eq!((desc.get(), desc.is_initialized()), (0x70, false));
    desc.init = true;
    let held = desc.take(0x71).unwrap();
    assert_eq!((held.get(), held.is_initialized()), (0x70, true));
    assert_eq!((desc.get(), desc.is_initialized()), (0x71, false));
    assert_eq!(desc.take(0x72), None);
    let mut other = sibyl::desc::Descriptor::new(0x73);
    desc.swap(&mut other);
    assert_eq!((desc.get(), other.get()), (0x73, 0x71));
}

#[test]
fn kinds_have_names() {
    let names: Vec<&str> = ALL_TYPES.iter().map(|t| ready(*t).buf.kind()).collect();
    assert_eq!(
        names,
        vec![
            "Text", "CLOB", "Binary", "BLOB", "BFile", "Number", "Date", "Timestamp", "TimestampTZ",
            "TimestampLTZ", "IntervalYM", "IntervalDS", "Float", "Double", "Rowid", "Cursor"
        ]
    );
    assert_eq!(Reply::Nothing.kind(), "Nothing");
    assert_eq!(Reply::Text(String::new()).kind(), "Text");
    assert_eq!(Reply::Int(0).kind(), "Int");
    assert_eq!(Reply::Float(0).kind(), "Float");
    assert_eq!(Reply::Double(0).kind(), "Double");
    assert_eq!(Reply::Number(OCINumber { bytes: [0; 22] }).kind(), "Number");
    assert_eq!(Reply::Descriptor(0).kind(), "Descriptor");
    assert_eq!(Reply::Failed(Error::new("x")).kind(), "Failed");
    assert_eq!(Fetched::Null.kind(), "NULL");
    assert_eq!(Fetched::Bytes(Vec::new()).kind(), "Bytes");
    assert_eq!(Fetched::Descriptor.kind(), "Descriptor");
}

#[test]
fn conversions_keep_the_kind_of_the_buffer() {
    for data_type in ALL_TYPES {
        let mut col = ready(data_type);
        let kind = col.buf.kind();
        let _ = String::value(&mut col, Reply::Text("x".to_string()));
        let _ = RowID::value(&mut col, Reply::Descriptor(1));
        let _ = Cursor::value(&mut col, Reply::Descriptor(2));
        let _ = CLOB::value(&mut col, Reply::Descriptor(3));
        let _ = BLOB::value(&mut col, Reply::Descriptor(4));
        let _ = BFile::value(&mut col, Reply::Descriptor(5));
        let _ = i64::value(&mut col, Reply::Int(6));
        let _ = Timestamp::value(&mut col, Reply::Descriptor(7));
        assert_eq!(col.buf.kind(), kind);
        assert_eq!((col.len, col.ind), (ready(data_type).len, 0));
    }
}

#[test]
fn fetched_values_read_back() {
    let apollo = OCIDate { year: 1969, month: 7, day: 24, hour: 16, min: 50, sec: 35 };
    let mut col = fetched(oci::SQLT_DAT, 0, Fetched::Date(apollo));
    let date = Date::value(&mut col, Reply::Nothing).unwrap();
    let (sql_type, out, size) = date.to_sql();
    assert_eq!((sql_type, size), (oci::SQLT_ODT, 8));
    let mut echo = fetched(oci::SQLT_DAT, 0, Fetched::Date(out));
    assert_eq!(Date::value(&mut echo, Reply::Nothing), Ok(date));
}
