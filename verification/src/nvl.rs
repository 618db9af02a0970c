//! A value that is bound to a parameter placeholder as NULL.

use crate::err::Error;
use crate::stmt::args::{
    null_at, null_bind, with_bind, with_indicator, Bind, Params, SqlType, ToSql, ToSqlOut,
};
use crate::oci;
use vstd::prelude::*;

verus! {

/// A Nullable Value.
///
/// This type represents a value that is bound to an SQL parameter placeholder as NULL.
pub struct Nvl<T>(Option<T>) where T: ToSql + SqlType;

impl<T> View for Nvl<T> where T: ToSql + SqlType {
    type V = Option<T>;

    /// The value that is held, if one is.
    closed spec fn view(&self) -> Option<T> {
        self.0
    }
}

impl<T> Nvl<T> where T: ToSql + SqlType {
    /// The wrapper that holds what `value` says: a value, or nothing.
    pub closed spec fn of(value: Option<T>) -> Self {
        Nvl(value)
    }

    /// Creates a new `Nvl`
    pub fn new(value: T) -> (nvl: Self)
        ensures
            nvl@ == Some(value),
            nvl == Self::of(Some(value)),
    {
        Self(Some(value))
    }

    /// Returns the contained value as an `Option<&T>`.
    ///
    /// A newly created `Nvl` always returns `Some` even though an SQL statement will bind it
    /// as NULL. After an SQL statement execution, where it was used as an INOUT parameter,
    /// it could be either `Some` if the statement has set to a non-null value, or `None` if
    /// the output value was null.
    pub fn as_ref(&self) -> (r: Option<&T>)
        ensures
            match (r, self@) {
                (Some(v), Some(held)) => *v == held,
                (None, None) => true,
                _ => false,
            },
    {
        self.0.as_ref()
    }

    /// Returns the contained value as an `Option<&mut T>`.
    pub fn as_mut(&mut self) -> (r: Option<&mut T>)
        ensures
            match r {
                Some(v) => old(self)@ == Some(*v) && final(self)@ == Some(*final(v)),
                None => old(self)@ is None && final(self)@ is None,
            },
    {
        self.0.as_mut()
    }

    /// Inserts a new value, then returns a mutable reference to it.
    ///
    /// If `Nvl` already contains a value, the old value is dropped.
    pub fn insert(&mut self, value: T) -> (r: &mut T)
        ensures
            *r == value,
            final(self)@ == Some(*final(r)),
    {
        self.0.insert(value)
    }

    /// Replaces the current value the value given in parameter, returning the old value if present,
    /// without deinitializing either one.
    pub fn replace(&mut self, value: T) -> (r: Option<T>)
        ensures
            r == old(self)@,
            final(self)@ == Some(value),
    {
        let held = self.0.take();
        self.0 = Some(value);
        held
    }

}

impl<T> ToSql for Nvl<T> where T: ToSql + SqlType {
    open spec fn binds(&self) -> nat {
        1
    }

    open spec fn bound(&self, pos: usize, params: Seq<Option<Bind>>) -> Seq<Option<Bind>> {
        with_bind(params, pos, null_bind(T::null_type_code()))
    }

    /// Binds a NULL of the wire type of `T`, whatever is held.
    fn bind_to(&self, pos: usize, params: &mut Params) -> (r: Result<usize, Error>) {
        match params.bind_null(pos, T::sql_null_type()) {
            Ok(_) => Ok(pos + 1),
            Err(e) => Err(e),
        }
    }
}

impl<T> ToSql for &Nvl<T> where T: ToSql + SqlType {
    open spec fn binds(&self) -> nat {
        1
    }

    open spec fn bound(&self, pos: usize, params: Seq<Option<Bind>>) -> Seq<Option<Bind>> {
        with_bind(params, pos, null_bind(T::null_type_code()))
    }

    /// Binds a NULL of the wire type of `T`, whatever is held.
    fn bind_to(&self, pos: usize, params: &mut Params) -> (r: Result<usize, Error>) {
        match params.bind_null(pos, T::sql_null_type()) {
            Ok(_) => Ok(pos + 1),
            Err(e) => Err(e),
        }
    }
}

impl<T> ToSqlOut for Nvl<T> where T: ToSql + ToSqlOut + SqlType {
    /// The positions of the value that is held, and one where nothing is.
    open spec fn out_binds(&self) -> nat {
        match self@ {
            Some(value) => value.out_binds(),
            None => 1,
        }
    }

    /// The value that is held is bound as its type binds it, and what is
    /// bound at `pos` is marked as a NULL; where nothing is held, a NULL of
    /// the wire type of `T` is bound.
    open spec fn out_bound(&self, pos: usize, params: Seq<Option<Bind>>) -> Seq<Option<Bind>> {
        match self@ {
            Some(value) => with_indicator(value.out_bound(pos, params), pos, oci::OCI_IND_NULL),
            None => with_bind(params, pos, null_bind(T::null_type_code())),
        }
    }

    /// Nothing is held where a NULL came back or nothing is bound at `pos`;
    /// else the value that was held has read the position, and where nothing
    /// was held nothing is.
    open spec fn read_back(&self, pos: usize, params: Seq<Option<Bind>>) -> Self {
        if null_at(params, pos) != Some(false) {
            Self::of(None)
        } else {
            match self@ {
                Some(value) => Self::of(Some(value.read_back(pos, params))),
                None => Self::of(None),
            }
        }
    }

    fn bind_out_to(&mut self, pos: usize, params: &mut Params) -> (r: Result<usize, Error>) {
        if let Some(val) = self.0.as_mut() {
            match val.bind_out_to(pos, params) {
                Ok(next_pos) => {
                    params.mark_as_null(pos);
                    Ok(next_pos)
                },
                Err(e) => Err(e),
            }
        } else {
            match params.bind_null(pos, T::sql_null_type()) {
                Ok(_) => Ok(pos + 1),
                Err(e) => Err(e),
            }
        }
    }

    fn update_from_bind(&mut self, pos: usize, params: &Params)
        ensures
            final(self)@ == if null_at(params@, pos) != Some(false) {
                None
            } else {
                match old(self)@ {
                    Some(value) => Some(value.read_back(pos, params@)),
                    None => None,
                }
            },
    {
        let null = match params.is_null(pos) {
            Ok(null) => null,
            Err(_) => true,
        };
        if null {
            self.0.take();
        } else if let Some(val) = self.0.as_mut() {
            val.update_from_bind(pos, params);
        }
    }
}

/// After an execution a wrapper that was bound as an argument that the
/// statement may change holds nothing where a NULL came back, and still
/// holds a value where a value came back to one that held a value.
pub proof fn lemma_read_back<T: ToSql + ToSqlOut + SqlType>(
    nvl: Nvl<T>,
    pos: usize,
    params: Seq<Option<Bind>>,
)
    ensures
        null_at(params, pos) == Some(true) ==> nvl.read_back(pos, params)@ is None,
        null_at(params, pos) is None ==> nvl.read_back(pos, params)@ is None,
        null_at(params, pos) == Some(false) ==> (nvl.read_back(pos, params)@ is Some <==> nvl@
            is Some),
        null_at(params, pos) == Some(false) && nvl@ is Some ==> nvl.read_back(pos, params)@
            == Some(nvl@->Some_0.read_back(pos, params)),
{
}

/// A wrapper that holds a value and is bound as an argument that the
/// statement may change takes the positions of its value, and goes in as a
/// NULL: where its value takes a position, that position is marked so.
pub proof fn lemma_bound_as_null<T: ToSql + ToSqlOut + SqlType>(
    nvl: Nvl<T>,
    pos: usize,
    params: Seq<Option<Bind>>,
)
    requires
        nvl@ is Some,
        1 <= pos <= params.len(),
        nvl@->Some_0.out_bound(pos, params).len() == params.len(),
        nvl@->Some_0.out_bound(pos, params)[pos - 1] is Some,
    ensures
        nvl.out_binds() == nvl@->Some_0.out_binds(),
        null_at(nvl.out_bound(pos, params), pos) == Some(true),
{
}

} // verus!
