//! A handle on one iTerm2 tab.
use vstd::prelude::*;
use std::sync::Arc;

verus! {

/// A tab, known by its identifier, and the connection that reaches it.
pub struct Tab<C> {
    pub id: String,
    pub(crate) conn: Arc<C>,
}

impl<C> Tab<C> {
    /// The tab's identifier, as text.
    pub open(crate) spec fn id_text(&self) -> Seq<char> {
        self.id@
    }

    /// The connection the handle uses.
    pub open(crate) spec fn handle(&self) -> Arc<C> {
        self.conn
    }

    pub fn new(id: String, conn: Arc<C>) -> (t: Self)
        ensures
            t.id_text() == id@,
            t.handle() == conn,
    {
        Tab { id, conn }
    }

    pub fn connection(&self) -> (c: &C)
        ensures
            *c == *self.handle(),
    {
        &self.conn
    }
}

} // verus!
