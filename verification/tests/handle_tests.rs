use iterm2_client::proto;
use iterm2_client::proto::server_originated_message::Submessage;
use iterm2_client::proto::split_tree_node::split_tree_link::Child;
use iterm2_client::proto::split_tree_node::SplitTreeLink;
use iterm2_client::{App, Session, Tab, Window};
use std::sync::Arc;

/// A stand-in for a connection: the handles only carry it.
#[derive(Debug, PartialEq)]
struct Link(u32);

fn summary(id: Option<&str>, title: Option<&str>) -> proto::SessionSummary {
    proto::SessionSummary {
        unique_identifier: id.map(|s| s.to_string()),
        frame: None,
        grid_size: None,
        title: title.map(|s| s.to_string()),
    }
}

fn leaf(id: &str, title: Option<&str>) -> SplitTreeLink {
    SplitTreeLink { child: Some(Child::Session(summary(Some(id), title))) }
}

#[test]
fn handles_keep_their_fields_and_connection() {
    let conn = Arc::new(Link(7));
    let s = Session::new("s1".to_string(), Some("bash".to_string()), Arc::clone(&conn));
    assert_eq!(s.id, "s1");
    assert_eq!(s.title.as_deref(), Some("bash"));
    assert_eq!(*s.connection(), Link(7));
    let t = Tab::new("t1".to_string(), Arc::clone(&conn));
    assert_eq!(t.id, "t1");
    assert_eq!(*t.connection(), Link(7));
    let w = Window::new("w1".to_string(), Arc::clone(&conn));
    assert_eq!(w.id, "w1");
    assert_eq!(*w.connection(), Link(7));
}

#[test]
fn app_connection_accessors_share_one_connection() {
    let app = App::new(Link(3));
    assert_eq!(*app.connection(), Link(3));
    let a = app.connection_arc();
    let b = app.connection_arc();
    assert!(Arc::ptr_eq(&a, &b));
    let shared = Arc::new(Link(4));
    let app2 = App::from_arc(Arc::clone(&shared));
    assert!(Arc::ptr_eq(&app2.connection_arc(), &shared));
}

#[test]
fn listing_reads_windows_tabs_and_tree() {
    let app = App::new(Link(1));
    let nested = proto::SplitTreeNode {
        vertical: Some(true),
        links: vec![leaf("s2", None), SplitTreeLink { child: None }, leaf("s3", Some("vim"))],
    };
    let root = proto::SplitTreeNode {
        vertical: Some(false),
        links: vec![
            leaf("s1", Some("bash")),
            SplitTreeLink { child: Some(Child::Node(nested)) },
            leaf("s4", None),
        ],
    };
    let resp = proto::ListSessionsResponse {
        windows: vec![proto::list_sessions_response::Window {
            tabs: vec![
                proto::list_sessions_response::Tab {
                    root: Some(root),
                    tab_id: Some("tab-1".to_string()),
                    ..Default::default()
                },
                proto::list_sessions_response::Tab { root: None, tab_id: None, ..Default::default() },
            ],
            window_id: Some("window-1".to_string()),
            frame: None,
            number: Some(0),
        }],
        buried_sessions: vec![summary(None, Some("buried"))],
    };
    let result = app.parse_list_sessions(resp);
    assert_eq!(result.windows.len(), 1);
    assert_eq!(result.windows[0].window.id, "window-1");
    assert_eq!(result.windows[0].tabs.len(), 2);
    assert_eq!(result.windows[0].tabs[0].tab.id, "tab-1");
    let ids: Vec<&str> = result.windows[0].tabs[0].sessions.iter().map(|s| s.id.as_str()).collect();
    assert_eq!(ids, vec!["s1", "s2", "s3", "s4"]);
    assert_eq!(result.windows[0].tabs[0].sessions[2].title.as_deref(), Some("vim"));
    assert_eq!(result.windows[0].tabs[1].tab.id, "");
    assert!(result.windows[0].tabs[1].sessions.is_empty());
    assert_eq!(result.buried_sessions.len(), 1);
    assert_eq!(result.buried_sessions[0].id, "");
    assert_eq!(result.buried_sessions[0].title.as_deref(), Some("buried"));
    assert!(Arc::ptr_eq(&app.connection_arc(), &app.connection_arc()));
}

#[test]
fn list_sessions_reply_matches_original_mock() {
    let app = App::new(Link(1));
    let resp = proto::ServerOriginatedMessage {
        id: Some(1),
        submessage: Some(Submessage::ListSessionsResponse(proto::ListSessionsResponse {
            windows: vec![proto::list_sessions_response::Window {
                tabs: vec![proto::list_sessions_response::Tab {
                    root: Some(proto::SplitTreeNode {
                        vertical: Some(false),
                        links: vec![leaf("session-1", Some("bash"))],
                    }),
                    tab_id: Some("tab-1".to_string()),
                    tmux_window_id: None,
                    tmux_connection_id: None,
                    minimized_sessions: vec![],
                }],
                window_id: Some("window-1".to_string()),
                frame: None,
                number: Some(0),
            }],
            buried_sessions: vec![],
        })),
    };
    let result = app.list_sessions_reply(resp).unwrap();
    assert_eq!(result.windows.len(), 1);
    assert_eq!(result.windows[0].window.id, "window-1");
    assert_eq!(result.windows[0].tabs[0].tab.id, "tab-1");
    assert_eq!(result.windows[0].tabs[0].sessions[0].id, "session-1");
    assert_eq!(result.windows[0].tabs[0].sessions[0].title.as_deref(), Some("bash"));
    let wrong = proto::ServerOriginatedMessage { id: Some(1), submessage: None };
    assert!(app.list_sessions_reply(wrong).is_err());
}

#[test]
fn create_tab_reply_builds_handles() {
    let app = App::new(Link(9));
    let resp = proto::ServerOriginatedMessage {
        id: Some(2),
        submessage: Some(Submessage::CreateTabResponse(proto::CreateTabResponse {
            status: Some(0),
            window_id: Some("window-1".to_string()),
            tab_id: Some(42),
            session_id: Some("new-session-1".to_string()),
        })),
    };
    let result = app.create_tab_reply(resp).unwrap();
    assert_eq!(result.session.id, "new-session-1");
    assert_eq!(result.session.title, None);
    assert_eq!(result.tab.id, "42");
    assert_eq!(result.window.id, "window-1");
    assert_eq!(*result.tab.connection(), Link(9));
    let failed = proto::ServerOriginatedMessage {
        id: Some(2),
        submessage: Some(Submessage::CreateTabResponse(proto::CreateTabResponse {
            status: Some(3),
            ..Default::default()
        })),
    };
    assert_eq!(
        app.create_tab_reply(failed).err().unwrap().to_string(),
        "Non-OK status: CreateTab returned status 3"
    );
}

#[test]
fn split_tree_clone_copies_whole_tree() {
    let tree = proto::SplitTreeNode {
        vertical: Some(true),
        links: vec![
            leaf("a", None),
            SplitTreeLink {
                child: Some(Child::Node(proto::SplitTreeNode { vertical: None, links: vec![leaf("b", None)] })),
            },
        ],
    };
    let copy = tree.clone();
    assert_eq!(copy, tree);
}

#[test]
fn copied_layout_lists_the_same_sessions() {
    let app = App::new(Link(2));
    let tree = proto::SplitTreeNode {
        vertical: Some(false),
        links: vec![
            leaf("a", Some("one")),
            SplitTreeLink {
                child: Some(Child::Node(proto::SplitTreeNode {
                    vertical: Some(true),
                    links: vec![leaf("b", None), leaf("c", Some("three"))],
                })),
            },
        ],
    };
    let listing = |root: proto::SplitTreeNode| proto::ListSessionsResponse {
        windows: vec![proto::list_sessions_response::Window {
            tabs: vec![proto::list_sessions_response::Tab { root: Some(root), ..Default::default() }],
            ..Default::default()
        }],
        buried_sessions: vec![],
    };
    let names = |r: iterm2_client::app::ListSessionsResult<Link>| -> Vec<(String, Option<String>)> {
        r.windows[0].tabs[0].sessions.iter().map(|s| (s.id.clone(), s.title.clone())).collect()
    };
    let original = names(app.parse_list_sessions(listing(tree.clone())));
    let copied = names(app.parse_list_sessions(listing(tree)));
    assert_eq!(original, copied);
    assert_eq!(original.len(), 3);
}
