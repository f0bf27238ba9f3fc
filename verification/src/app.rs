//! The application-level handle, and the reading of a session listing into
//! window, tab and session handles.
use vstd::prelude::*;
use std::sync::Arc;
use crate::error::{Error, Result};
use crate::proto;
use crate::proto::server_originated_message::Submessage;
use crate::proto::split_tree_node::split_tree_link::Child;
use crate::reply::{check_status_i32, status_error, tab_number_text, unexpected_value};
use crate::session::Session;
use crate::tab::Tab;
use crate::text::{i32_text, text_or_empty};
use crate::window::Window;

verus! {

/// Handle on the iTerm2 application, over a shared connection.
pub struct App<C> {
    conn: Arc<C>,
}

/// A window of a session listing, with its tabs.
pub struct WindowInfo<C> {
    pub window: Window<C>,
    pub tabs: Vec<TabInfo<C>>,
}

/// A tab of a session listing, with the sessions of its split-pane tree.
pub struct TabInfo<C> {
    pub tab: Tab<C>,
    pub sessions: Vec<Session<C>>,
}

/// All windows, and the buried sessions, that iTerm2 reported.
pub struct ListSessionsResult<C> {
    pub windows: Vec<WindowInfo<C>>,
    pub buried_sessions: Vec<Session<C>>,
}

/// Handles on the window, tab and session that creating a tab produced.
pub struct CreateTabResult<C> {
    pub window: Window<C>,
    pub tab: Tab<C>,
    pub session: Session<C>,
}

// ---------------------------------------------------------------------------
// What a listing means
// ---------------------------------------------------------------------------

/// Identifier and title of a listed session; an absent identifier reads as
/// empty.
pub open spec fn summary_entry(s: proto::SessionSummary) -> (Seq<char>, Option<Seq<char>>) {
    (text_or_empty(s.unique_identifier), s.title.deep_view())
}

/// The sessions of a split-pane tree, depth first, left to right.
pub open spec fn tree_sessions(node: proto::SplitTreeNode) -> Seq<(Seq<char>, Option<Seq<char>>)>
    decreases node,
{
    proof {
        assert(decreases_to!(node => node.links@));
    }
    links_sessions(node.links@)
}

/// The sessions below a sequence of split-tree links, in order; a link with
/// no child contributes none.
pub open spec fn links_sessions(links: Seq<proto::split_tree_node::SplitTreeLink>) -> Seq<
    (Seq<char>, Option<Seq<char>>),
>
    decreases links,
{
    if links.len() == 0 {
        Seq::empty()
    } else {
        let prefix = links_sessions(links.drop_last());
        match links.last().child {
            Some(Child::Session(s)) => prefix.push(summary_entry(s)),
            Some(Child::Node(n)) => {
                proof {
                    assert(decreases_to!(links => links[links.len() - 1]));
                }
                prefix + tree_sessions(n)
            },
            None => prefix,
        }
    }
}

/// Trees that are the same (a layout and its copy, for instance) list the
/// same sessions.
pub proof fn law_same_tree_same_sessions(a: proto::SplitTreeNode, b: proto::SplitTreeNode)
    requires
        proto::same_tree(a, b),
    ensures
        tree_sessions(a) == tree_sessions(b),
    decreases a,
{
    assert(decreases_to!(a => a.links@));
    lemma_same_links_same_sessions(a.links@, b.links@);
}

proof fn lemma_same_links_same_sessions(
    a: Seq<proto::split_tree_node::SplitTreeLink>,
    b: Seq<proto::split_tree_node::SplitTreeLink>,
)
    requires
        proto::same_links(a, b),
    ensures
        links_sessions(a) == links_sessions(b),
    decreases a,
{
    if a.len() > 0 {
        lemma_same_links_same_sessions(a.drop_last(), b.drop_last());
        match (a.last().child, b.last().child) {
            (Some(Child::Node(x)), Some(Child::Node(y))) => {
                assert(decreases_to!(a => a[a.len() - 1]));
                law_same_tree_same_sessions(x, y);
            },
            _ => {},
        }
    }
}

/// The session reached from `node` by `path`: each step picks a link by its
/// index, every step but the last enters a nested split, and the last lands
/// on a session.
pub open spec fn leaf_at(node: proto::SplitTreeNode, path: Seq<int>) -> Option<proto::SessionSummary>
    decreases node,
{
    if path.len() == 0 || !(0 <= path[0] < node.links@.len()) {
        None
    } else {
        proof {
            assert(decreases_to!(node => node.links@[path[0]]));
        }
        match node.links@[path[0]].child {
            Some(Child::Session(s)) => if path.len() == 1 {
                Some(s)
            } else {
                None
            },
            Some(Child::Node(n)) => leaf_at(n, path.drop_first()),
            None => None,
        }
    }
}

/// The number of sessions (leaves) in a split-pane tree.
pub open spec fn leaf_count(node: proto::SplitTreeNode) -> nat
    decreases node,
{
    proof {
        assert(decreases_to!(node => node.links@));
    }
    links_leaf_count(node.links@)
}

/// The number of sessions below a sequence of split-tree links.
pub open spec fn links_leaf_count(links: Seq<proto::split_tree_node::SplitTreeLink>) -> nat
    decreases links,
{
    if links.len() == 0 {
        0
    } else {
        proof {
            assert(decreases_to!(links => links[0]));
        }
        let here: nat = match links[0].child {
            Some(Child::Session(_)) => 1,
            Some(Child::Node(n)) => leaf_count(n),
            None => 0,
        };
        here + links_leaf_count(links.drop_first())
    }
}

/// Whatever is listed of the first `k` links stays listed for all of them.
proof fn lemma_listed_stays_listed(
    links: Seq<proto::split_tree_node::SplitTreeLink>,
    k: int,
    e: (Seq<char>, Option<Seq<char>>),
)
    requires
        0 <= k <= links.len(),
        links_sessions(links.take(k)).contains(e),
    ensures
        links_sessions(links).contains(e),
    decreases links.len() - k,
{
    if k == links.len() {
        assert(links.take(k) =~= links);
    } else {
        let t = links.take(k + 1);
        assert(t.drop_last() =~= links.take(k));
        let pre = links_sessions(links.take(k));
        let j = choose|j: int| 0 <= j < pre.len() && pre[j] == e;
        match t.last().child {
            Some(Child::Session(s)) => {
                assert(links_sessions(t) == pre.push(summary_entry(s)));
                assert(links_sessions(t)[j] == e);
            },
            Some(Child::Node(n)) => {
                assert(links_sessions(t) == pre + tree_sessions(n));
                assert(links_sessions(t)[j] == e);
            },
            None => {},
        }
        lemma_listed_stays_listed(links, k + 1, e);
    }
}

/// Every session of a split-pane tree is listed, at whatever depth it sits
/// and whatever the layout of the splits above it.
pub proof fn law_every_session_of_the_tree_is_listed(node: proto::SplitTreeNode, path: Seq<int>)
    requires
        leaf_at(node, path) is Some,
    ensures
        tree_sessions(node).contains(summary_entry(leaf_at(node, path)->0)),
    decreases node,
{
    let links = node.links@;
    let i = path[0];
    let t = links.take(i + 1);
    assert(t.drop_last() =~= links.take(i));
    assert(t.last() == links[i]);
    let pre = links_sessions(links.take(i));
    let e = summary_entry(leaf_at(node, path)->0);
    assert(decreases_to!(node => node.links@[i]));
    match links[i].child {
        Some(Child::Session(s)) => {
            assert(links_sessions(t) == pre.push(summary_entry(s)));
            assert(links_sessions(t)[pre.len() as int] == e);
        },
        Some(Child::Node(n)) => {
            law_every_session_of_the_tree_is_listed(n, path.drop_first());
            let sub = tree_sessions(n);
            let j = choose|j: int| 0 <= j < sub.len() && sub[j] == e;
            assert(links_sessions(t) == pre + sub);
            assert(links_sessions(t)[pre.len() + j] == e);
        },
        None => {},
    }
    lemma_listed_stays_listed(links, i + 1, e);
}

/// Whatever the first `k` links of `node` list is a session of the tree.
proof fn lemma_listed_is_a_session(node: proto::SplitTreeNode, k: int, e: (Seq<char>, Option<Seq<char>>))
    requires
        0 <= k <= node.links@.len(),
        links_sessions(node.links@.take(k)).contains(e),
    ensures
        exists|path: Seq<int>|
            #[trigger] leaf_at(node, path) is Some && summary_entry(leaf_at(node, path)->0) == e,
    decreases node, k,
{
    let links = node.links@;
    if k == 0 {
        assert(links.take(0) =~= Seq::<proto::split_tree_node::SplitTreeLink>::empty());
    } else {
        let t = links.take(k);
        assert(t.drop_last() =~= links.take(k - 1));
        assert(t.last() == links[k - 1]);
        let pre = links_sessions(links.take(k - 1));
        assert(decreases_to!(node => node.links@[k - 1]));
        if pre.contains(e) {
            lemma_listed_is_a_session(node, k - 1, e);
        } else {
            match links[k - 1].child {
                Some(Child::Session(s)) => {
                    let l = links_sessions(t);
                    assert(l == pre.push(summary_entry(s)));
                    let j = choose|j: int| 0 <= j < l.len() && l[j] == e;
                    if j < pre.len() {
                        assert(pre[j] == e);
                    }
                    let path = seq![k - 1];
                    assert(leaf_at(node, path) == Some(s));
                },
                Some(Child::Node(n)) => {
                    let sub = tree_sessions(n);
                    let l = links_sessions(t);
                    assert(l == pre + sub);
                    let j = choose|j: int| 0 <= j < l.len() && l[j] == e;
                    if j < pre.len() {
                        assert(pre[j] == e);
                    }
                    assert(sub[j - pre.len()] == e);
                    law_every_listed_session_is_in_the_tree(n, e);
                    let p = choose|p: Seq<int>|
                        #[trigger] leaf_at(n, p) is Some && summary_entry(leaf_at(n, p)->0) == e;
                    let path = seq![k - 1] + p;
                    assert(path.drop_first() =~= p);
                    assert(leaf_at(node, path) == leaf_at(n, p));
                },
                None => {
                    assert(links_sessions(t) == pre);
                },
            }
        }
    }
}

/// Every listed session is a session of the tree: nothing is listed that
/// the tree does not hold.
pub proof fn law_every_listed_session_is_in_the_tree(
    node: proto::SplitTreeNode,
    e: (Seq<char>, Option<Seq<char>>),
)
    requires
        tree_sessions(node).contains(e),
    ensures
        exists|path: Seq<int>|
            #[trigger] leaf_at(node, path) is Some && summary_entry(leaf_at(node, path)->0) == e,
    decreases node, node.links@.len() + 1,
{
    assert(node.links@.take(node.links@.len() as int) =~= node.links@);
    lemma_listed_is_a_session(node, node.links@.len() as int, e);
}

/// Counting the links from the back gives the same number of sessions.
proof fn lemma_leaf_count_from_the_back(links: Seq<proto::split_tree_node::SplitTreeLink>)
    requires
        links.len() > 0,
    ensures
        links_leaf_count(links) == links_leaf_count(links.drop_last()) + match links.last().child {
            Some(Child::Session(_)) => 1,
            Some(Child::Node(n)) => leaf_count(n),
            None => 0nat,
        },
    decreases links.len(),
{
    if links.len() == 1 {
        assert(links.drop_last() =~= Seq::<proto::split_tree_node::SplitTreeLink>::empty());
        assert(links.drop_first() =~= Seq::<proto::split_tree_node::SplitTreeLink>::empty());
    } else {
        lemma_leaf_count_from_the_back(links.drop_first());
        assert(links.drop_first().drop_last() =~= links.drop_last().drop_first());
        assert(links.drop_first().last() == links.last());
        assert(links.drop_last()[0] == links[0]);
    }
}

proof fn lemma_links_listing_length(links: Seq<proto::split_tree_node::SplitTreeLink>)
    ensures
        links_sessions(links).len() == links_leaf_count(links),
    decreases links,
{
    if links.len() > 0 {
        lemma_links_listing_length(links.drop_last());
        lemma_leaf_count_from_the_back(links);
        assert(decreases_to!(links => links[links.len() - 1]));
        match links.last().child {
            Some(Child::Node(n)) => {
                law_listing_length_is_leaf_count(n);
            },
            _ => {},
        }
    }
}

/// A tab lists exactly as many sessions as its split-pane tree has leaves.
pub proof fn law_listing_length_is_leaf_count(node: proto::SplitTreeNode)
    ensures
        tree_sessions(node).len() == leaf_count(node),
    decreases node,
{
    assert(decreases_to!(node => node.links@));
    lemma_links_listing_length(node.links@);
}

/// The sessions of a tab whose tree root may be absent.
pub open spec fn root_sessions(root: Option<proto::SplitTreeNode>) -> Seq<
    (Seq<char>, Option<Seq<char>>),
> {
    match root {
        Some(n) => tree_sessions(n),
        None => Seq::empty(),
    }
}

/// `v` holds, in order, handles on the sessions `es`, all over `conn`.
pub open spec fn sessions_are<C>(
    v: Seq<Session<C>>,
    es: Seq<(Seq<char>, Option<Seq<char>>)>,
    conn: Arc<C>,
) -> bool {
    &&& v.len() == es.len()
    &&& forall|i: int| 0 <= i < v.len() ==> #[trigger] v[i].entry() == es[i]
    &&& forall|i: int| 0 <= i < v.len() ==> #[trigger] v[i].handle() == conn
}

// ---------------------------------------------------------------------------
// Reading a listing
// ---------------------------------------------------------------------------

fn copy_text(o: &Option<String>) -> (r: Option<String>)
    ensures
        r == *o,
{
    match o {
        Some(s) => Some(s.clone()),
        None => None,
    }
}

fn text_or_default(o: &Option<String>) -> (r: String)
    ensures
        r@ == text_or_empty(*o),
{
    match o {
        Some(s) => s.clone(),
        None => String::new(),
    }
}

fn session_from_summary<C>(s: &proto::SessionSummary, conn: &Arc<C>) -> (h: Session<C>)
    ensures
        h.entry() == summary_entry(*s),
        h.handle() == *conn,
{
    Session::new(text_or_default(&s.unique_identifier), copy_text(&s.title), Arc::clone(conn))
}

proof fn lemma_sessions_push<C>(
    v: Seq<Session<C>>,
    es: Seq<(Seq<char>, Option<Seq<char>>)>,
    s: Session<C>,
    e: (Seq<char>, Option<Seq<char>>),
    conn: Arc<C>,
)
    requires
        sessions_are(v, es, conn),
        s.entry() == e,
        s.handle() == conn,
    ensures
        sessions_are(v.push(s), es.push(e), conn),
{
    assert forall|i: int| 0 <= i < v.push(s).len() implies #[trigger] v.push(s)[i].entry() == es.push(e)[i] by {
        if i < v.len() {
            assert(v.push(s)[i] == v[i]);
        }
    }
    assert forall|i: int| 0 <= i < v.push(s).len() implies #[trigger] v.push(s)[i].handle() == conn by {
        if i < v.len() {
            assert(v.push(s)[i] == v[i]);
        }
    }
}

proof fn lemma_sessions_concat<C>(
    v: Seq<Session<C>>,
    es: Seq<(Seq<char>, Option<Seq<char>>)>,
    w: Seq<Session<C>>,
    fs: Seq<(Seq<char>, Option<Seq<char>>)>,
    conn: Arc<C>,
)
    requires
        sessions_are(v, es, conn),
        sessions_are(w, fs, conn),
    ensures
        sessions_are(v + w, es + fs, conn),
{
    assert forall|i: int| 0 <= i < (v + w).len() implies #[trigger] (v + w)[i].entry() == (es + fs)[i] by {
        if i < v.len() {
            assert((v + w)[i] == v[i]);
        } else {
            assert((v + w)[i] == w[i - v.len()]);
        }
    }
    assert forall|i: int| 0 <= i < (v + w).len() implies #[trigger] (v + w)[i].handle() == conn by {
        if i < v.len() {
            assert((v + w)[i] == v[i]);
        } else {
            assert((v + w)[i] == w[i - v.len()]);
        }
    }
}

/// Handles on the sessions of the tree below `node`, depth first.
fn collect_sessions_from_node<C>(node: &proto::SplitTreeNode, conn: &Arc<C>) -> (v: Vec<Session<C>>)
    ensures
        sessions_are(v@, tree_sessions(*node), *conn),
    decreases node,
{
    let mut sessions: Vec<Session<C>> = Vec::new();
    let mut i: usize = 0;
    proof {
        assert(node.links@.take(0) =~= Seq::<proto::split_tree_node::SplitTreeLink>::empty());
    }
    while i < node.links.len()
        invariant
            i <= node.links@.len(),
            sessions_are(sessions@, links_sessions(node.links@.take(i as int)), *conn),
        decreases node.links@.len() - i,
    {
        let ghost before = sessions@;
        let ghost prefix = links_sessions(node.links@.take(i as int));
        proof {
            let t = node.links@.take(i + 1);
            assert(t.drop_last() =~= node.links@.take(i as int));
            assert(t.last() == node.links@[i as int]);
        }
        let link = &node.links[i];
        match &link.child {
            Some(Child::Session(s)) => {
                let h = session_from_summary(s, conn);
                sessions.push(h);
                proof {
                    lemma_sessions_push(before, prefix, h, summary_entry(*s), *conn);
                }
            },
            Some(Child::Node(n)) => {
                proof {
                    assert(decreases_to!(node => node.links@[i as int]));
                }
                let mut sub = collect_sessions_from_node(n, conn);
                let ghost sub_view = sub@;
                sessions.append(&mut sub);
                proof {
                    lemma_sessions_concat(before, prefix, sub_view, tree_sessions(*n), *conn);
                }
            },
            None => {},
        }
        i = i + 1;
    }
    proof {
        assert(node.links@.take(node.links@.len() as int) =~= node.links@);
    }
    sessions
}

/// Handles on the sessions of the tree below `node` (none when it is absent).
fn collect_sessions_from_tree<C>(node: Option<&proto::SplitTreeNode>, conn: &Arc<C>) -> (v: Vec<
    Session<C>,
>)
    ensures
        sessions_are(
            v@,
            match node {
                Some(n) => tree_sessions(*n),
                None => Seq::empty(),
            },
            *conn,
        ),
{
    match node {
        Some(n) => collect_sessions_from_node(n, conn),
        None => Vec::new(),
    }
}

// ---------------------------------------------------------------------------
// What a listing reads into
// ---------------------------------------------------------------------------

/// `t` holds handles, over `conn`, on the tab `src` and on the sessions of
/// its split-pane tree.
pub open spec fn tab_info_is<C>(t: TabInfo<C>, src: proto::list_sessions_response::Tab, conn: Arc<C>) -> bool {
    &&& t.tab.id_text() == text_or_empty(src.tab_id)
    &&& t.tab.handle() == conn
    &&& sessions_are(t.sessions@, root_sessions(src.root), conn)
}

/// `w` holds handles, over `conn`, on the window `src` and on each of its
/// tabs, in order.
pub open spec fn window_info_is<C>(
    w: WindowInfo<C>,
    src: proto::list_sessions_response::Window,
    conn: Arc<C>,
) -> bool {
    &&& w.window.id_text() == text_or_empty(src.window_id)
    &&& w.window.handle() == conn
    &&& w.tabs@.len() == src.tabs@.len()
    &&& forall|j: int| 0 <= j < w.tabs@.len() ==> tab_info_is(#[trigger] w.tabs@[j], src.tabs@[j], conn)
}

/// `r` is the reading of the listing `resp` into handles over `conn`:
/// every window in order, and the buried sessions in order.
pub open spec fn listing_is<C>(r: ListSessionsResult<C>, resp: proto::ListSessionsResponse, conn: Arc<C>) -> bool {
    &&& r.windows@.len() == resp.windows@.len()
    &&& forall|i: int|
        0 <= i < r.windows@.len() ==> window_info_is(#[trigger] r.windows@[i], resp.windows@[i], conn)
    &&& sessions_are(
        r.buried_sessions@,
        resp.buried_sessions@.map_values(|s: proto::SessionSummary| summary_entry(s)),
        conn,
    )
}

/// The handles that a create-tab reply `x` yields, over `conn`.
pub open spec fn created_tab_is<C>(v: CreateTabResult<C>, x: proto::CreateTabResponse, conn: Arc<C>) -> bool {
    &&& v.window.id_text() == text_or_empty(x.window_id)
    &&& v.window.handle() == conn
    &&& v.tab.id_text() == (match tab_number_text(x.tab_id) {
        Some(t) => t,
        None => Seq::empty(),
    })
    &&& v.tab.handle() == conn
    &&& v.session.entry() == (text_or_empty(x.session_id), None::<Seq<char>>)
    &&& v.session.handle() == conn
}

impl<C> App<C> {
    /// The connection the application handle uses.
    pub closed spec fn handle(&self) -> Arc<C> {
        self.conn
    }

    pub fn new(conn: C) -> (app: Self)
        ensures
            *app.handle() == conn,
    {
        App { conn: Arc::new(conn) }
    }

    pub fn from_arc(conn: Arc<C>) -> (app: Self)
        ensures
            app.handle() == conn,
    {
        App { conn }
    }

    pub fn connection(&self) -> (c: &C)
        ensures
            *c == *self.handle(),
    {
        &self.conn
    }

    pub fn connection_arc(&self) -> (c: Arc<C>)
        ensures
            c == self.handle(),
    {
        Arc::clone(&self.conn)
    }

    /// Reads a session listing into handles on its windows, tabs and
    /// sessions, all over this application's connection.
    pub fn parse_list_sessions(&self, resp: proto::ListSessionsResponse) -> (r: ListSessionsResult<C>)
        ensures
            listing_is(r, resp, self.handle()),
    {
        let mut windows: Vec<WindowInfo<C>> = Vec::new();
        let mut i: usize = 0;
        while i < resp.windows.len()
            invariant
                i <= resp.windows@.len(),
                windows@.len() == i,
                forall|k: int|
                    0 <= k < i ==> window_info_is(#[trigger] windows@[k], resp.windows@[k], self.handle()),
            decreases resp.windows@.len() - i,
        {
            let w = &resp.windows[i];
            let mut tabs: Vec<TabInfo<C>> = Vec::new();
            let mut j: usize = 0;
            while j < w.tabs.len()
                invariant
                    j <= w.tabs@.len(),
                    tabs@.len() == j,
                    forall|k: int| 0 <= k < j ==> tab_info_is(#[trigger] tabs@[k], w.tabs@[k], self.handle()),
                decreases w.tabs@.len() - j,
            {
                let t = &w.tabs[j];
                let tab_id = text_or_default(&t.tab_id);
                let sessions = collect_sessions_from_tree(t.root.as_ref(), &self.conn);
                let info = TabInfo { tab: Tab::new(tab_id, Arc::clone(&self.conn)), sessions };
                let ghost before = tabs@;
                tabs.push(info);
                proof {
                    assert forall|k: int| 0 <= k < j + 1 implies tab_info_is(#[trigger] tabs@[k], w.tabs@[k], self.handle()) by {
                        if k < j {
                            assert(tabs@[k] == before[k]);
                        }
                    }
                }
                j = j + 1;
            }
            let window_id = text_or_default(&w.window_id);
            let info = WindowInfo { window: Window::new(window_id, Arc::clone(&self.conn)), tabs };
            let ghost before = windows@;
            windows.push(info);
            proof {
                assert forall|k: int| 0 <= k < i + 1 implies window_info_is(#[trigger] windows@[k], resp.windows@[k], self.handle()) by {
                    if k < i {
                        assert(windows@[k] == before[k]);
                    }
                }
            }
            i = i + 1;
        }
        let mut buried: Vec<Session<C>> = Vec::new();
        let mut b: usize = 0;
        let ghost entries = resp.buried_sessions@.map_values(|s: proto::SessionSummary| summary_entry(s));
        proof {
            assert(entries.take(0) =~= Seq::<(Seq<char>, Option<Seq<char>>)>::empty());
        }
        while b < resp.buried_sessions.len()
            invariant
                b <= resp.buried_sessions@.len(),
                entries == resp.buried_sessions@.map_values(|s: proto::SessionSummary| summary_entry(s)),
                sessions_are(buried@, entries.take(b as int), self.handle()),
            decreases resp.buried_sessions@.len() - b,
        {
            let h = session_from_summary(&resp.buried_sessions[b], &self.conn);
            let ghost before = buried@;
            buried.push(h);
            proof {
                assert(entries.take(b + 1) =~= entries.take(b as int).push(entries[b as int]));
                lemma_sessions_push(before, entries.take(b as int), h, entries[b as int], self.handle());
            }
            b = b + 1;
        }
        proof {
            assert(entries.take(entries.len() as int) =~= entries);
        }
        ListSessionsResult { windows, buried_sessions: buried }
    }

    /// Reads the reply to a session-listing request.
    pub fn list_sessions_reply(&self, resp: proto::ServerOriginatedMessage) -> (r: Result<
        ListSessionsResult<C>,
    >)
        ensures
            match resp.submessage {
                Some(Submessage::ListSessionsResponse(x)) => r matches Ok(v) && listing_is(
                    v,
                    x,
                    self.handle(),
                ),
                _ => unexpected_value(r, "ListSessionsResponse"@),
            },
    {
        match resp.submessage {
            Some(Submessage::ListSessionsResponse(x)) => Ok(self.parse_list_sessions(x)),
            _ => Err(Error::UnexpectedResponse { expected: "ListSessionsResponse" }),
        }
    }

    /// Reads the reply to a create-tab request into handles on the new
    /// window, tab and session; absent identifiers read as empty.
    pub fn create_tab_reply(&self, resp: proto::ServerOriginatedMessage) -> (r: Result<
        CreateTabResult<C>,
    >)
        ensures
            match resp.submessage {
                Some(Submessage::CreateTabResponse(x)) => match status_error(x.status, "CreateTab"@) {
                    Some(ev) => r matches Err(e) && e@ == ev,
                    None => r matches Ok(v) && created_tab_is(v, x, self.handle()),
                },
                _ => unexpected_value(r, "CreateTabResponse"@),
            },
    {
        match resp.submessage {
            Some(Submessage::CreateTabResponse(x)) => {
                check_status_i32(x.status, "CreateTab")?;
                let session_id = text_or_default(&x.session_id);
                let tab_id = match x.tab_id {
                    Some(n) => i32_text(n),
                    None => String::new(),
                };
                let window_id = text_or_default(&x.window_id);
                Ok(
                    CreateTabResult {
                        window: Window::new(window_id, Arc::clone(&self.conn)),
                        tab: Tab::new(tab_id, Arc::clone(&self.conn)),
                        session: Session::new(session_id, None, Arc::clone(&self.conn)),
                    },
                )
            },
            _ => Err(Error::UnexpectedResponse { expected: "CreateTabResponse" }),
        }
    }
}

} // verus!
