//! A handle on one iTerm2 window.
use vstd::prelude::*;
use std::sync::Arc;

verus! {

/// A window, known by its identifier, and the connection that reaches it.
pub struct Window<C> {
    pub id: String,
    pub(crate) conn: Arc<C>,
}

impl<C> Window<C> {
    /// The window's identifier, as text.
    pub open(crate) spec fn id_text(&self) -> Seq<char> {
        self.id@
    }

    /// The connection the handle uses.
    pub open(crate) spec fn handle(&self) -> Arc<C> {
        self.conn
    }

    pub fn new(id: String, conn: Arc<C>) -> (w: Self)
        ensures
            w.id_text() == id@,
            w.handle() == conn,
    {
        Window { id, conn }
    }

    pub fn connection(&self) -> (c: &C)
        ensures
            *c == *self.handle(),
    {
        &self.conn
    }
}

/// What a window reports back after creating a tab in it.
pub struct CreateTabResult {
    pub tab_id: Option<String>,
    pub session_id: Option<String>,
    pub window_id: Option<String>,
}

} // verus!
