//! The Oracle DATE: time with a precision of one second

use crate::oci;
use vstd::prelude::*;

verus! {

/// A DATE in the form of the call interface. The library carries the fields
/// and does not check that they name a day that exists.
#[derive(Clone, Copy, Debug, PartialEq, Eq, Structural)]
pub struct OCIDate {
    pub year: i16,
    pub month: u8,
    pub day: u8,
    pub hour: u8,
    pub min: u8,
    pub sec: u8,
}

/// A DATE with all fields zero, which is what a buffer holds before anything
/// is fetched into it.
pub fn new() -> (date: OCIDate)
    ensures
        date == (OCIDate { year: 0, month: 0, day: 0, hour: 0, min: 0, sec: 0 }),
{
    OCIDate { year: 0, month: 0, day: 0, hour: 0, min: 0, sec: 0 }
}

/// Represents Oracle DATE
#[derive(Clone, Copy, Debug, PartialEq, Eq, Structural)]
pub struct Date {
    pub date: OCIDate,
}

/// A `Date` with a copy of the given value.
pub fn from_date(from: &OCIDate) -> (date: Date)
    ensures
        date.date == *from,
{
    Date { date: *from }
}

impl Date {
    /// The wire type, the value and its size in bytes, which is what binds a
    /// date to a statement.
    pub open spec fn sql(self) -> (u16, OCIDate, usize) {
        (oci::SQLT_ODT, self.date, oci::OCI_DATE_SIZE)
    }

    /// The wire type, the value and its size as an argument of a statement.
    pub fn to_sql(&self) -> (r: (u16, OCIDate, usize))
        ensures
            r == self.sql(),
    {
        (oci::SQLT_ODT, self.date, oci::OCI_DATE_SIZE)
    }

    /// The wire type, the value, its size and the size of the memory that
    /// can take a value back, as an output argument of a statement.
    pub fn to_sql_output(&mut self) -> (r: (u16, OCIDate, usize, usize))
        ensures
            r == (old(self).sql().0, old(self).sql().1, old(self).sql().2, oci::OCI_DATE_SIZE),
            *final(self) == *old(self),
    {
        (oci::SQLT_ODT, self.date, oci::OCI_DATE_SIZE, oci::OCI_DATE_SIZE)
    }
}

} // verus!
