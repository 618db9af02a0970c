//! Arguments of a statement: the placeholders, and the binding of values to
//! them.

use crate::err::{parameter_not_found, Error};
use crate::oci;
use crate::types::date::Date;
use vstd::prelude::*;

verus! {

/// What is bound to one placeholder: the wire type of the value, its size in
/// bytes, the size of the memory that can take a value back, which is 0 for
/// an argument that only goes in, and the indicator, which tells before the
/// execution whether a NULL goes in and after it whether a NULL came out.
#[derive(Clone, Copy, Debug, PartialEq, Eq, Structural)]
pub struct Bind {
    pub sql_type: u16,
    pub size: usize,
    pub capacity: usize,
    pub ind: i16,
}

/// The placeholders of a statement. Positions count from 1.
pub struct Params {
    binds: Vec<Option<Bind>>,
}

impl View for Params {
    type V = Seq<Option<Bind>>;

    closed spec fn view(&self) -> Seq<Option<Bind>> {
        self.binds@
    }
}

/// True when `count` positions from `pos` on are positions of `len`
/// placeholders.
pub open spec fn fits(pos: usize, count: nat, len: nat) -> bool {
    1 <= pos && pos + count <= len + 1
}

/// The placeholders with `bind` at position `pos`.
pub open spec fn with_bind(binds: Seq<Option<Bind>>, pos: usize, bind: Bind) -> Seq<Option<Bind>> {
    binds.update(pos - 1, Some(bind))
}

/// The placeholders with the indicator `ind` at position `pos`, where
/// something is bound there.
pub open spec fn with_indicator(binds: Seq<Option<Bind>>, pos: usize, ind: i16) -> Seq<
    Option<Bind>,
> {
    if 1 <= pos <= binds.len() && binds[pos - 1] is Some {
        let bind = binds[pos - 1]->Some_0;
        binds.update(pos - 1, Some(Bind { ind, ..bind }))
    } else {
        binds
    }
}

/// Whether the value at position `pos` is NULL, where something is bound
/// there.
pub open spec fn null_at(binds: Seq<Option<Bind>>, pos: usize) -> Option<bool> {
    if 1 <= pos <= binds.len() && binds[pos - 1] is Some {
        Some(binds[pos - 1]->Some_0.ind == oci::OCI_IND_NULL)
    } else {
        None
    }
}

/// The bind of a NULL of the given wire type.
pub open spec fn null_bind(sql_type: u16) -> Bind {
    Bind { sql_type, size: 0, capacity: 0, ind: oci::OCI_IND_NULL }
}

/// The bind of a value of the given wire type and size that only goes in.
pub open spec fn value_bind(sql_type: u16, size: usize) -> Bind {
    Bind { sql_type, size, capacity: 0, ind: oci::OCI_IND_NOTNULL }
}

/// The bind of a value of the given wire type and size that the statement
/// may change, with memory of `capacity` bytes for the value that comes
/// back.
pub open spec fn output_bind(sql_type: u16, size: usize, capacity: usize) -> Bind {
    Bind { sql_type, size, capacity, ind: oci::OCI_IND_NOTNULL }
}

impl Params {
    #[verifier::type_invariant]
    spec fn countable(self) -> bool {
        self.binds@.len() < usize::MAX
    }

    /// The placeholders of a statement that has `count` of them, with
    /// nothing bound yet.
    pub fn new(count: usize) -> (params: Params)
        requires
            count < usize::MAX,
        ensures
            params@.len() == count,
            forall|i: int| 0 <= i < count ==> params@[i] is None,
    {
        let mut binds: Vec<Option<Bind>> = Vec::new();
        let mut i: usize = 0;
        while i < count
            invariant
                i <= count,
                binds@.len() == i,
                forall|j: int| 0 <= j < i ==> binds@[j] is None,
            decreases count - i,
        {
            binds.push(None);
            i += 1;
        }
        Params { binds }
    }

    /// The number of placeholders.
    pub fn len(&self) -> (n: usize)
        ensures
            n == self@.len(),
            n < usize::MAX,
    {
        proof {
            use_type_invariant(self);
        }
        self.binds.len()
    }

    /// What is bound at position `pos`.
    pub fn get(&self, pos: usize) -> (r: Option<Bind>)
        ensures
            r == if 1 <= pos <= self@.len() {
                self@[pos - 1]
            } else {
                None
            },
    {
        if 1 <= pos && pos <= self.binds.len() {
            self.binds[pos - 1]
        } else {
            None
        }
    }

    /// Puts `bind` at position `pos`.
    fn put(&mut self, pos: usize, bind: Bind) -> (r: Result<(), Error>)
        ensures
            fits(pos, 1, old(self)@.len()) ==> r is Ok && final(self)@ == with_bind(
                old(self)@,
                pos,
                bind,
            ),
            !fits(pos, 1, old(self)@.len()) ==> (r matches Err(e) && e@ == parameter_not_found())
                && final(self)@ == old(self)@,
            final(self)@.len() == old(self)@.len(),
            final(self)@.len() < usize::MAX,
    {
        proof {
            use_type_invariant(&*self);
        }
        if 1 <= pos && pos <= self.binds.len() {
            let mut binds: Vec<Option<Bind>> = Vec::new();
            std::mem::swap(&mut binds, &mut self.binds);
            binds.set(pos - 1, Some(bind));
            *self = Params { binds };
            Ok(())
        } else {
            Err(Error::new("parameter not found"))
        }
    }

    /// Binds a value of the given wire type and size at position `pos`.
    /// There is no parameter at a position that is 0 or beyond the last.
    pub fn bind(&mut self, pos: usize, sql_type: u16, size: usize) -> (r: Result<(), Error>)
        ensures
            fits(pos, 1, old(self)@.len()) ==> r is Ok && final(self)@ == with_bind(
                old(self)@,
                pos,
                value_bind(sql_type, size),
            ),
            !fits(pos, 1, old(self)@.len()) ==> (r matches Err(e) && e@ == parameter_not_found())
                && final(self)@ == old(self)@,
            final(self)@.len() == old(self)@.len(),
            final(self)@.len() < usize::MAX,
    {
        self.put(pos, Bind { sql_type, size, capacity: 0, ind: oci::OCI_IND_NOTNULL })
    }

    /// Binds a value of the given wire type and size at position `pos` as an
    /// argument that the statement may change, with memory of `capacity`
    /// bytes for the value that comes back.
    pub fn bind_out(&mut self, pos: usize, sql_type: u16, size: usize, capacity: usize) -> (r:
        Result<(), Error>)
        ensures
            fits(pos, 1, old(self)@.len()) ==> r is Ok && final(self)@ == with_bind(
                old(self)@,
                pos,
                output_bind(sql_type, size, capacity),
            ),
            !fits(pos, 1, old(self)@.len()) ==> (r matches Err(e) && e@ == parameter_not_found())
                && final(self)@ == old(self)@,
            final(self)@.len() == old(self)@.len(),
            final(self)@.len() < usize::MAX,
    {
        self.put(pos, Bind { sql_type, size, capacity, ind: oci::OCI_IND_NOTNULL })
    }

    /// Binds a NULL of the given wire type at position `pos`.
    pub fn bind_null(&mut self, pos: usize, sql_type: u16) -> (r: Result<(), Error>)
        ensures
            fits(pos, 1, old(self)@.len()) ==> r is Ok && final(self)@ == with_bind(
                old(self)@,
                pos,
                null_bind(sql_type),
            ),
            !fits(pos, 1, old(self)@.len()) ==> (r matches Err(e) && e@ == parameter_not_found())
                && final(self)@ == old(self)@,
            final(self)@.len() == old(self)@.len(),
            final(self)@.len() < usize::MAX,
    {
        self.put(pos, Bind { sql_type, size: 0, capacity: 0, ind: oci::OCI_IND_NULL })
    }

    /// Sets the indicator at position `pos`, where something is bound there.
    /// This is how the outcome of an execution reaches an output argument.
    pub fn set_indicator(&mut self, pos: usize, ind: i16)
        ensures
            final(self)@ == with_indicator(old(self)@, pos, ind),
    {
        proof {
            use_type_invariant(&*self);
        }
        if 1 <= pos && pos <= self.binds.len() {
            if let Some(bind) = self.binds[pos - 1] {
                let mut binds: Vec<Option<Bind>> = Vec::new();
                std::mem::swap(&mut binds, &mut self.binds);
                binds.set(
                    pos - 1,
                    Some(
                        Bind {
                            sql_type: bind.sql_type,
                            size: bind.size,
                            capacity: bind.capacity,
                            ind,
                        },
                    ),
                );
                *self = Params { binds };
            }
        }
    }

    /// Marks what is bound at position `pos` as a NULL.
    pub fn mark_as_null(&mut self, pos: usize)
        ensures
            final(self)@ == with_indicator(old(self)@, pos, oci::OCI_IND_NULL),
    {
        self.set_indicator(pos, oci::OCI_IND_NULL);
    }

    /// Tells whether the value at position `pos` is NULL. Where nothing is
    /// bound there, there is no parameter to tell it of.
    pub fn is_null(&self, pos: usize) -> (r: Result<bool, Error>)
        ensures
            match null_at(self@, pos) {
                Some(null) => r == Ok::<bool, Error>(null),
                None => r matches Err(e) && e@ == parameter_not_found(),
            },
    {
        match self.get(pos) {
            Some(bind) => Ok(bind.ind == oci::OCI_IND_NULL),
            None => Err(Error::new("parameter not found")),
        }
    }
}

/// A type that has a wire type.
pub trait SqlType {
    /// The wire type of the values of the type.
    spec fn type_code() -> u16;

    /// The wire type of a NULL of the type.
    spec fn null_type_code() -> u16;

    /// Returns the wire type of the values of the type.
    fn sql_type() -> (r: u16)
        ensures
            r == Self::type_code(),
    ;

    /// Returns the wire type of a NULL of the type.
    fn sql_null_type() -> (r: u16)
        ensures
            r == Self::null_type_code(),
    ;
}

/// A trait for types that can be used as SQL arguments
pub trait ToSql {
    /// The number of positions that the value takes.
    spec fn binds(&self) -> nat;

    /// The placeholders after the value is bound at `pos`.
    spec fn bound(&self, pos: usize, params: Seq<Option<Bind>>) -> Seq<Option<Bind>>;

    /// Binds itself to the SQL parameter placeholder at `pos` and returns the
    /// position of the next argument. The value is bound where the positions
    /// that it takes are positions of parameters; where they are not, nothing
    /// is bound.
    fn bind_to(&self, pos: usize, params: &mut Params) -> (r: Result<usize, Error>)
        ensures
            final(params)@.len() == old(params)@.len(),
            fits(pos, self.binds(), old(params)@.len()) ==> r == Ok::<usize, Error>(
                (pos + self.binds()) as usize,
            ) && final(params)@ == self.bound(pos, old(params)@),
            !fits(pos, self.binds(), old(params)@.len()) ==> (r matches Err(e) && e@
                == parameter_not_found()) && final(params)@ == old(params)@,
    ;
}

/// A trait for types that can be used as SQL IN/OUT arguments
pub trait ToSqlOut: Sized {
    /// The number of positions that the value takes.
    spec fn out_binds(&self) -> nat;

    /// The placeholders after the value is bound at `pos`.
    spec fn out_bound(&self, pos: usize, params: Seq<Option<Bind>>) -> Seq<Option<Bind>>;

    /// The value after it has taken from position `pos` what the execution
    /// left there.
    spec fn read_back(&self, pos: usize, params: Seq<Option<Bind>>) -> Self;

    /// Binds itself to the SQL parameter placeholder at `pos` as an argument
    /// that the statement may change, and returns the position of the next
    /// argument. The value is bound where the positions that it takes are
    /// positions of parameters; where they are not, nothing is bound. Binding
    /// leaves the value as it is.
    fn bind_out_to(&mut self, pos: usize, params: &mut Params) -> (r: Result<usize, Error>)
        ensures
            *final(self) == *old(self),
            final(params)@.len() == old(params)@.len(),
            fits(pos, old(self).out_binds(), old(params)@.len()) ==> r == Ok::<usize, Error>(
                (pos + old(self).out_binds()) as usize,
            ) && final(params)@ == old(self).out_bound(pos, old(params)@),
            !fits(pos, old(self).out_binds(), old(params)@.len()) ==> (r matches Err(e) && e@
                == parameter_not_found()) && final(params)@ == old(params)@,
    ;

    /// Takes from position `pos` what the execution of the statement left
    /// there.
    fn update_from_bind(&mut self, pos: usize, params: &Params)
        ensures
            *final(self) == old(self).read_back(pos, params@),
    ;
}

impl SqlType for i32 {
    open spec fn type_code() -> u16 {
        oci::SQLT_INT
    }

    open spec fn null_type_code() -> u16 {
        oci::SQLT_INT
    }

    fn sql_type() -> (r: u16) {
        oci::SQLT_INT
    }

    fn sql_null_type() -> (r: u16) {
        oci::SQLT_INT
    }
}

impl ToSql for i32 {
    open spec fn binds(&self) -> nat {
        1
    }

    open spec fn bound(&self, pos: usize, params: Seq<Option<Bind>>) -> Seq<Option<Bind>> {
        with_bind(params, pos, value_bind(oci::SQLT_INT, 4))
    }

    fn bind_to(&self, pos: usize, params: &mut Params) -> (r: Result<usize, Error>) {
        match params.bind(pos, oci::SQLT_INT, 4) {
            Ok(_) => Ok(pos + 1),
            Err(e) => Err(e),
        }
    }
}

impl ToSqlOut for i32 {
    open spec fn out_binds(&self) -> nat {
        1
    }

    open spec fn out_bound(&self, pos: usize, params: Seq<Option<Bind>>) -> Seq<Option<Bind>> {
        with_bind(params, pos, output_bind(oci::SQLT_INT, 4, 4))
    }

    open spec fn read_back(&self, pos: usize, params: Seq<Option<Bind>>) -> Self {
        *self
    }

    fn bind_out_to(&mut self, pos: usize, params: &mut Params) -> (r: Result<usize, Error>) {
        match params.bind_out(pos, oci::SQLT_INT, 4, 4) {
            Ok(_) => Ok(pos + 1),
            Err(e) => Err(e),
        }
    }

    fn update_from_bind(&mut self, pos: usize, params: &Params) {
    }
}

impl SqlType for i64 {
    open spec fn type_code() -> u16 {
        oci::SQLT_INT
    }

    open spec fn null_type_code() -> u16 {
        oci::SQLT_INT
    }

    fn sql_type() -> (r: u16) {
        oci::SQLT_INT
    }

    fn sql_null_type() -> (r: u16) {
        oci::SQLT_INT
    }
}

impl ToSql for i64 {
    open spec fn binds(&self) -> nat {
        1
    }

    open spec fn bound(&self, pos: usize, params: Seq<Option<Bind>>) -> Seq<Option<Bind>> {
        with_bind(params, pos, value_bind(oci::SQLT_INT, 8))
    }

    fn bind_to(&self, pos: usize, params: &mut Params) -> (r: Result<usize, Error>) {
        match params.bind(pos, oci::SQLT_INT, 8) {
            Ok(_) => Ok(pos + 1),
            Err(e) => Err(e),
        }
    }
}

impl ToSqlOut for i64 {
    open spec fn out_binds(&self) -> nat {
        1
    }

    open spec fn out_bound(&self, pos: usize, params: Seq<Option<Bind>>) -> Seq<Option<Bind>> {
        with_bind(params, pos, output_bind(oci::SQLT_INT, 8, 8))
    }

    open spec fn read_back(&self, pos: usize, params: Seq<Option<Bind>>) -> Self {
        *self
    }

    fn bind_out_to(&mut self, pos: usize, params: &mut Params) -> (r: Result<usize, Error>) {
        match params.bind_out(pos, oci::SQLT_INT, 8, 8) {
            Ok(_) => Ok(pos + 1),
            Err(e) => Err(e),
        }
    }

    fn update_from_bind(&mut self, pos: usize, params: &Params) {
    }
}

impl SqlType for Date {
    open spec fn type_code() -> u16 {
        oci::SQLT_ODT
    }

    open spec fn null_type_code() -> u16 {
        oci::SQLT_ODT
    }

    fn sql_type() -> (r: u16) {
        oci::SQLT_ODT
    }

    fn sql_null_type() -> (r: u16) {
        oci::SQLT_ODT
    }
}

impl ToSql for Date {
    open spec fn binds(&self) -> nat {
        1
    }

    open spec fn bound(&self, pos: usize, params: Seq<Option<Bind>>) -> Seq<Option<Bind>> {
        with_bind(params, pos, value_bind(oci::SQLT_ODT, oci::OCI_DATE_SIZE))
    }

    fn bind_to(&self, pos: usize, params: &mut Params) -> (r: Result<usize, Error>) {
        let (sql_type, _, size) = self.to_sql();
        match params.bind(pos, sql_type, size) {
            Ok(_) => Ok(pos + 1),
            Err(e) => Err(e),
        }
    }
}

impl ToSqlOut for Date {
    open spec fn out_binds(&self) -> nat {
        1
    }

    open spec fn out_bound(&self, pos: usize, params: Seq<Option<Bind>>) -> Seq<Option<Bind>> {
        with_bind(params, pos, output_bind(oci::SQLT_ODT, oci::OCI_DATE_SIZE, oci::OCI_DATE_SIZE))
    }

    open spec fn read_back(&self, pos: usize, params: Seq<Option<Bind>>) -> Self {
        *self
    }

    fn bind_out_to(&mut self, pos: usize, params: &mut Params) -> (r: Result<usize, Error>) {
        let (sql_type, _, size, capacity) = self.to_sql_output();
        match params.bind_out(pos, sql_type, size, capacity) {
            Ok(_) => Ok(pos + 1),
            Err(e) => Err(e),
        }
    }

    fn update_from_bind(&mut self, pos: usize, params: &Params) {
    }
}

} // verus!
