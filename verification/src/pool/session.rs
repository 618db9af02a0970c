//! Session pool: the account of the sessions that a pool has opened and of
//! those that are out with callers.
//!
//! The pool does not wait and does not decide: whether a session is handed
//! out is the answer of the call interface, which the account follows.

use crate::err::Error;
use crate::oci;
use vstd::prelude::*;

verus! {

/// Mode in which the pool is created: all sessions are of one user, and
/// statements are cached.
pub const POOL_CREATE_MODE: u32 = oci::OCI_SPC_HOMOGENEOUS | oci::OCI_SPC_STMTCACHE;

/// Mode in which a session is taken from the pool: the session comes from
/// the pool, and may have been used before by the same application.
pub const SESSION_GET_MODE: u32 = oci::OCI_SESSGET_SPOOL | oci::OCI_SESSGET_PURITY_SELF;

/// The sizes of a pool and the count of its sessions.
#[derive(Clone, Copy, Debug, PartialEq, Eq, Structural)]
pub struct PoolState {
    /// Sessions that the pool opens when it is created.
    pub min: u32,
    /// Sessions that the pool opens at once when all that are open are out.
    pub inc: u32,
    /// Sessions that the pool opens at most.
    pub max: u32,
    /// Sessions that are open.
    pub open: u32,
    /// Sessions that are out with callers.
    pub busy: u32,
}

impl PoolState {
    /// True when no more sessions are out than are open, and no more are open
    /// than the pool may open.
    pub open spec fn bounded(self) -> bool {
        self.busy <= self.open <= self.max
    }

    /// The state of a pool that was created with the given sizes: it has
    /// opened its minimum of sessions, as far as its maximum allows, and none
    /// is out.
    pub open spec fn created(min: u32, inc: u32, max: u32) -> PoolState {
        PoolState { min, inc, max, open: if min <= max { min } else { max }, busy: 0 }
    }

    /// True when the pool has a session to give: fewer are out than it may
    /// open.
    pub open spec fn available(self) -> bool {
        self.busy < self.max
    }

    /// The state after a session was handed out by a pool that had one to
    /// give. Where all open sessions were out, the pool has opened its
    /// increment of sessions, and at least one, as far as its maximum allows.
    pub open spec fn checked_out(self) -> PoolState {
        let step = if self.inc == 0 {
            1
        } else {
            self.inc
        };
        let open = if self.busy < self.open {
            self.open
        } else if self.max - self.open <= step {
            self.max
        } else {
            (self.open + step) as u32
        };
        PoolState { open, busy: (self.busy + 1) as u32, ..self }
    }

    /// The state after the call interface has handed out a session: the
    /// session is counted where the pool had one to give. The account does
    /// not count beyond the maximum of the pool.
    pub open spec fn counted(self) -> PoolState {
        if self.available() {
            self.checked_out()
        } else {
            self
        }
    }

    /// The state after a session was returned.
    pub open spec fn returned(self) -> PoolState {
        if self.busy > 0 {
            PoolState { busy: (self.busy - 1) as u32, ..self }
        } else {
            self
        }
    }
}

/// What the call interface is asked when a pool is created.
#[derive(Debug, PartialEq, Eq)]
pub struct PoolRequest {
    pub dbname: String,
    pub username: String,
    pub password: String,
    /// Sessions to open at once.
    pub min: u32,
    /// Sessions to open at most.
    pub max: u32,
    /// Sessions to open when all that are open are out.
    pub inc: u32,
    /// Mode of the pool.
    pub mode: u32,
}

/// A session of the database, by the address of its service context.
#[derive(Debug, PartialEq, Eq)]
pub struct Connection {
    svc: u64,
}

impl Connection {
    /// The address of the service context of the session.
    pub closed spec fn svc(&self) -> u64 {
        self.svc
    }

    /// The address of the service context of the session.
    pub fn get_svc_ctx(&self) -> (svc: u64)
        ensures
            svc == self.svc(),
    {
        self.svc
    }

    /// Takes a session from the pool. `session` is what the call interface
    /// answered when it was asked for one.
    pub fn from_session_pool(pool: &mut SessionPool, session: Result<u64, Error>) -> (r: Result<
        Connection,
        Error,
    >)
        ensures
            SessionPool::taken(old(pool)@, session, final(pool)@, r),
            final(pool).name() == old(pool).name(),
            final(pool)@.bounded(),
    {
        match pool.get_svc_ctx(session) {
            Ok(svc) => Ok(Connection { svc }),
            Err(e) => Err(e),
        }
    }
}

/// A pool of sessions of one user of one database.
pub struct SessionPool {
    name: String,
    state: PoolState,
}

impl View for SessionPool {
    type V = PoolState;

    closed spec fn view(&self) -> PoolState {
        self.state
    }
}

impl SessionPool {
    #[verifier::type_invariant]
    spec fn bounded(self) -> bool {
        self.state.bounded()
    }

    /// The name that the call interface gave to the pool.
    pub closed spec fn name(&self) -> Seq<char> {
        self.name@
    }

    /// True when `after` and `r` are what taking a session makes of the pool
    /// `before` and of the answer of the call interface. A failure of the
    /// call interface is passed on as it is, and the pool stays as it is. A
    /// session that the call interface handed out is handed on, and counted.
    pub open spec fn taken(
        before: PoolState,
        session: Result<u64, Error>,
        after: PoolState,
        r: Result<Connection, Error>,
    ) -> bool {
        match session {
            Ok(svc) => r matches Ok(conn) && conn.svc() == svc && after == before.counted(),
            Err(e) => r == Err::<Connection, Error>(e) && after == before,
        }
    }

    /// Says what the call interface is to be asked, to create a pool of
    /// sessions of the user `username` of the database `dbname`. Sizes beyond
    /// what the call interface counts are cut to that.
    pub fn request(
        dbname: &str,
        username: &str,
        password: &str,
        min: usize,
        inc: usize,
        max: usize,
    ) -> (r: PoolRequest)
        ensures
            r.dbname@ == dbname@,
            r.username@ == username@,
            r.password@ == password@,
            r.min == Self::count(min),
            r.inc == Self::count(inc),
            r.max == Self::count(max),
            r.mode == POOL_CREATE_MODE,
    {
        PoolRequest {
            dbname: dbname.to_owned(),
            username: username.to_owned(),
            password: password.to_owned(),
            min: Self::to_count(min),
            max: Self::to_count(max),
            inc: Self::to_count(inc),
            mode: POOL_CREATE_MODE,
        }
    }

    /// The account of a pool that the call interface has created. `created`
    /// is its answer: the name of the pool, or the error, which is passed on.
    /// Sizes beyond what the call interface counts are cut to that.
    pub fn new(min: usize, inc: usize, max: usize, created: Result<String, Error>) -> (r: Result<
        Self,
        Error,
    >)
        ensures
            match created {
                Ok(name) => r matches Ok(pool) && pool.name() == name@ && pool@
                    == PoolState::created(
                    Self::count(min),
                    Self::count(inc),
                    Self::count(max),
                ) && pool@.bounded(),
                Err(e) => r == Err::<Self, Error>(e),
            },
    {
        match created {
            Ok(name) => {
                let min: u32 = Self::to_count(min);
                let inc: u32 = Self::to_count(inc);
                let max: u32 = Self::to_count(max);
                let open: u32 = if min <= max { min } else { max };
                Ok(Self { name, state: PoolState { min, inc, max, open, busy: 0 } })
            },
            Err(e) => Err(e),
        }
    }

    /// A size as the call interface counts it.
    pub open spec fn count(n: usize) -> u32 {
        if n <= u32::MAX {
            n as u32
        } else {
            u32::MAX
        }
    }

    /// A size as the call interface counts it.
    fn to_count(n: usize) -> (r: u32)
        ensures
            r == Self::count(n),
    {
        if n <= u32::MAX as usize {
            n as u32
        } else {
            u32::MAX
        }
    }

    /// Tells whether the account shows a session to give.
    pub fn available(&self) -> (r: bool)
        ensures
            r == self@.available(),
    {
        self.state.busy < self.state.max
    }

    /// Hands out the service context of a session of the pool. `session` is
    /// what the call interface answered when it was asked for one, in
    /// `SESSION_GET_MODE`: its error is returned as it is and leaves the
    /// account as it is; its session is returned and counted.
    pub fn get_svc_ctx(&mut self, session: Result<u64, Error>) -> (r: Result<u64, Error>)
        ensures
            final(self).name() == old(self).name(),
            final(self)@.bounded(),
            match session {
                Ok(svc) => r == Ok::<u64, Error>(svc) && final(self)@ == old(self)@.counted(),
                Err(e) => r == Err::<u64, Error>(e) && final(self)@ == old(self)@,
            },
    {
        proof {
            use_type_invariant(&*self);
        }
        let svc: u64 = match session {
            Ok(svc) => svc,
            Err(e) => {
                return Err(e);
            },
        };
        let state = self.state;
        if state.busy < state.max {
            let step: u32 = if state.inc == 0 {
                1
            } else {
                state.inc
            };
            let open: u32 = if state.busy < state.open {
                state.open
            } else if state.max - state.open <= step {
                state.max
            } else {
                state.open + step
            };
            self.state = PoolState { open, busy: state.busy + 1, ..state };
        }
        Ok(svc)
    }

    /// Returns a new session with a new underlying connection from this
    /// pool. `session` is what the call interface answered when it was asked
    /// for one.
    pub fn get_session(&mut self, session: Result<u64, Error>) -> (r: Result<Connection, Error>)
        ensures
            Self::taken(old(self)@, session, final(self)@, r),
            final(self).name() == old(self).name(),
            final(self)@.bounded(),
    {
        Connection::from_session_pool(self, session)
    }

    /// Takes back a session that a caller is done with.
    pub fn release(&mut self, conn: Connection)
        ensures
            final(self)@ == old(self)@.returned(),
            final(self).name() == old(self).name(),
            final(self)@.bounded(),
    {
        proof {
            use_type_invariant(&*self);
        }
        let state = self.state;
        if state.busy > 0 {
            self.state = PoolState { busy: state.busy - 1, ..state };
        }
    }

    /// The number of sessions that are open. It never exceeds the maximum of
    /// the pool.
    pub fn open_count(&self) -> (n: usize)
        ensures
            n == self@.open,
            n <= self@.max,
    {
        proof {
            use_type_invariant(self);
        }
        self.state.open as usize
    }

    /// The number of sessions that are out with callers. It never exceeds
    /// the number of those that are open.
    pub fn busy_count(&self) -> (n: usize)
        ensures
            n == self@.busy,
            n <= self@.open,
    {
        proof {
            use_type_invariant(self);
        }
        self.state.busy as usize
    }

    /// The name that the call interface gave to the pool.
    pub fn pool_name(&self) -> (name: &str)
        ensures
            name@ == self.name(),
    {
        self.name.as_str()
    }
}

/// A pool never has more sessions open than its maximum, nor more out than
/// are open: that holds when it is created, and counting a session that was
/// handed out and taking one back keep it.
pub proof fn lemma_sessions_bounded(min: u32, inc: u32, max: u32, state: PoolState)
    requires
        state.bounded(),
    ensures
        PoolState::created(min, inc, max).bounded(),
        state.counted().bounded(),
        state.returned().bounded(),
        state.counted().max == state.max,
        state.returned().max == state.max,
{
}

/// A pool of which as many sessions are out as it may open has none to give,
/// and has one again as soon as one is returned.
pub proof fn lemma_exhausted_until_returned(state: PoolState)
    requires
        state.bounded(),
        state.busy == state.max,
    ensures
        !state.available(),
        state.max > 0 ==> state.returned().available(),
{
}

} // verus!
