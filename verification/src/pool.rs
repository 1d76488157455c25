//! A bounded pool of reusable connection handles.
//!
//! The pool is the only resource shared between requests.  Each repository
//! operation checks one handle out, performs a single statement, and gives
//! the handle back on every exit path; the repository contracts state that
//! round trip by requiring the checked-out count to end where it began.
//! Failure to acquire surfaces as an error, never silently.

use vstd::prelude::*;

verus! {

/// Witness that one connection is checked out of a pool.  Values exist only
/// between a successful [`ConnectionPool::acquire`] and the matching
/// [`ConnectionPool::release`].
pub struct ConnectionHandle {
    reserved: bool,
}

/// A bounded set of reusable handles to the single embedded store.
pub struct ConnectionPool {
    capacity: usize,
    in_use: usize,
}

impl ConnectionPool {
    /// How many handles the pool was built with.
    pub closed spec fn spec_capacity(&self) -> int {
        self.capacity as int
    }

    /// How many handles are currently checked out.
    pub closed spec fn spec_in_use(&self) -> int {
        self.in_use as int
    }

    /// Whether a handle is free to be checked out.
    pub open spec fn spec_available(&self) -> bool {
        self.spec_in_use() < self.spec_capacity()
    }

    /// A fresh pool of `capacity` handles, none checked out.
    pub fn new(capacity: usize) -> (p: ConnectionPool)
        ensures
            p.spec_capacity() == capacity as int,
            p.spec_in_use() == 0,
    {
        ConnectionPool { capacity, in_use: 0 }
    }

    /// Checks a handle out.  A handle comes back exactly when one is free;
    /// an exhausted pool returns `None` and is left unchanged.
    pub fn acquire(&mut self) -> (h: Option<ConnectionHandle>)
        ensures
            final(self).spec_capacity() == old(self).spec_capacity(),
            h is Some <==> old(self).spec_available(),
            h is Some ==> final(self).spec_in_use() >= 1,
            old(self).spec_available() ==> final(self).spec_in_use() == old(self).spec_in_use()
                + 1,
            !old(self).spec_available() ==> final(self).spec_in_use() == old(self).spec_in_use(),
    {
        if self.in_use < self.capacity {
            self.in_use = self.in_use + 1;
            Some(ConnectionHandle { reserved: true })
        } else {
            None
        }
    }

    /// Gives a handle back to the pool.
    pub fn release(&mut self, handle: ConnectionHandle)
        requires
            old(self).spec_in_use() >= 1,
        ensures
            final(self).spec_capacity() == old(self).spec_capacity(),
            final(self).spec_in_use() == old(self).spec_in_use() - 1,
    {
        let ConnectionHandle { reserved: _ } = handle;
        self.in_use = self.in_use - 1;
    }
}

} // verus!
