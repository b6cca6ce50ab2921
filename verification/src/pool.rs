//! A bounded pool of live database connections, shared by all in-flight
//! requests.
//!
//! The pool hands out one [`PooledConn`] per request; the token is a linear
//! value, so a checked-out connection can be given back exactly once, and
//! only through [`DbConnection::release`]. The counters say how the pool's
//! state changes; the wire-level connection itself lives outside this core.

use vstd::prelude::*;

verus! {

/// A connection checked out of the pool, exclusively owned by one request
/// for that request's duration.
pub struct PooledConn {
    token: (),
}

/// The process-wide connection pool: a bounded set of reusable connections.
pub struct DbConnection {
    capacity: usize,
    available: usize,
}

/// View of `DbConnection`: how many connections exist and how many are free.
pub ghost struct PoolV {
    pub capacity: usize,
    pub available: usize,
}

impl View for DbConnection {
    type V = PoolV;

    closed spec fn view(&self) -> PoolV {
        PoolV { capacity: self.capacity, available: self.available }
    }
}

impl DbConnection {
    /// No more connections are free than exist.
    pub open spec fn wf(&self) -> bool {
        self@.available <= self@.capacity
    }

    /// A pool with the default capacity, all connections free.
    pub fn new() -> (r: DbConnection)
        ensures
            r.wf(),
            r@.capacity == 10,
            r@.available == 10,
    {
        DbConnection { capacity: 10, available: 10 }
    }

    /// A pool with the given capacity, all connections free.
    pub fn with_capacity(capacity: usize) -> (r: DbConnection)
        ensures
            r.wf(),
            r@.capacity == capacity,
            r@.available == capacity,
    {
        DbConnection { capacity, available: capacity }
    }

    /// Checks one connection out. Fails exactly when the pool is exhausted,
    /// which stands for the acquisition timeout elapsing.
    pub fn checkout(&mut self) -> (r: Option<PooledConn>)
        ensures
            old(self)@.available == 0 ==> r is None && final(self)@ == old(self)@,
            old(self)@.available > 0 ==> r is Some && final(self)@ == (PoolV {
                capacity: old(self)@.capacity,
                available: (old(self)@.available - 1) as usize,
            }),
            old(self).wf() ==> final(self).wf(),
    {
        if self.available == 0 {
            None
        } else {
            self.available = self.available - 1;
            Some(PooledConn { token: () })
        }
    }

    /// Returns a checked-out connection to the pool (never to the database).
    pub fn release(&mut self, conn: PooledConn)
        requires
            old(self)@.available < old(self)@.capacity,
        ensures
            final(self)@ == (PoolV {
                capacity: old(self)@.capacity,
                available: (old(self)@.available + 1) as usize,
            }),
            old(self).wf() ==> final(self).wf(),
    {
        let PooledConn { token: _ } = conn;
        self.available = self.available + 1;
    }
}

} // verus!
