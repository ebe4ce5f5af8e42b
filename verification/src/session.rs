//! The model of the external session collaborator.
//!
//! Session establishment and transport are outside this library's scope; all
//! the handle protocol observes of a session is whether it can still serve
//! declarations.  A publisher declared over a valid session succeeds; one
//! declared over a closed session fails with the generic code.

use vstd::prelude::*;

verus! {

/// A pub/sub session, reduced to what the publisher protocol observes of it.
pub struct Session {
    /// Whether the session can still serve declarations.
    pub valid: bool,
}

impl Session {
    /// Opens a session.  Establishment itself is an outside concern; an
    /// opened session is valid.
    pub fn open() -> (s: Session)
        ensures
            s.valid,
    {
        Session { valid: true }
    }

    /// Closes the session: later declarations over it fail.
    pub fn close(&mut self)
        ensures
            !final(self).valid,
    {
        self.valid = false;
    }

    /// Returns `true` iff the session can still serve declarations.
    pub fn is_valid(&self) -> (r: bool)
        ensures
            r == self.valid,
    {
        self.valid
    }
}

} // verus!
