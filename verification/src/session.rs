//! A handle on one iTerm2 session (a pane).
use vstd::prelude::*;
use std::sync::Arc;

verus! {

/// A session, known by its unique identifier, and the connection that
/// reaches it.
pub struct Session<C> {
    pub id: String,
    pub title: Option<String>,
    pub(crate) conn: Arc<C>,
}

impl<C> Session<C> {
    /// The session's identifier and title, as text.
    pub open(crate) spec fn entry(&self) -> (Seq<char>, Option<Seq<char>>) {
        (self.id@, self.title.deep_view())
    }

    /// The connection the handle uses.
    pub open(crate) spec fn handle(&self) -> Arc<C> {
        self.conn
    }

    pub fn new(id: String, title: Option<String>, conn: Arc<C>) -> (s: Self)
        ensures
            s.entry() == (id@, title.deep_view()),
            s.handle() == conn,
    {
        Session { id, title, conn }
    }

    pub fn connection(&self) -> (c: &C)
        ensures
            *c == *self.handle(),
    {
        &self.conn
    }
}

} // verus!
