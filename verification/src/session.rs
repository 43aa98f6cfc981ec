//! The session that a signed cookie carries from request to request.

use vstd::prelude::*;

verus! {

/// The two states of a session.
#[derive(Clone, Copy, Debug, PartialEq, Eq, Structural)]
pub enum Session {
    /// No user has logged in, or the user has logged out.
    Anonymous,
    /// The user with this key has logged in.
    Authenticated(i32),
}

impl Session {
    /// The key of the user that the session belongs to, if any.
    pub open spec fn user(self) -> Option<i32> {
        match self {
            Session::Anonymous => None,
            Session::Authenticated(id) => Some(id),
        }
    }

    /// A session in which nobody has logged in.
    pub fn new() -> (s: Session)
        ensures
            s == Session::Anonymous,
    {
        Session::Anonymous
    }

    /// The key of the user that the session belongs to, if any.
    pub fn user_id(&self) -> (id: Option<i32>)
        ensures
            id == self.user(),
    {
        match self {
            Session::Anonymous => None,
            Session::Authenticated(id) => Some(*id),
        }
    }

    /// Binds the session to a user.
    pub fn insert(&mut self, user_id: i32)
        ensures
            *final(self) == Session::Authenticated(user_id),
    {
        *self = Session::Authenticated(user_id);
    }

    /// Discards whatever the session holds.
    pub fn purge(&mut self)
        ensures
            *final(self) == Session::Anonymous,
    {
        *self = Session::Anonymous;
    }
}

} // verus!
