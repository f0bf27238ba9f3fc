use iterm2_client::proto;
use iterm2_client::proto::client_originated_message::Submessage;
use iterm2_client::request::{
    activate_session, begin_transaction, close_sessions, create_tab, end_transaction, focus,
    get_broadcast_domains, get_buffer_screen, get_buffer_trailing, get_preference,
    get_profile_property, get_property_window, get_selection, get_variable_session, inject,
    invoke_function_app, invoke_menu_item, list_arrangements, list_color_presets, list_profiles,
    list_sessions, query_menu_item, register_tool, restart_session, rpc_result_value, send_text,
    set_profile_property_session, set_property_window, set_variable_session, split_pane,
    subscribe_notification, tmux_list_connections, unsubscribe_notification,
};

#[test]
fn list_sessions_request() {
    let msg = list_sessions();
    assert!(msg.id.is_none());
    assert!(matches!(
        msg.submessage,
        Some(Submessage::ListSessionsRequest(_))
    ));
}

#[test]
fn send_text_request() {
    let msg = send_text("session-123", "hello\n");
    match msg.submessage {
        Some(Submessage::SendTextRequest(req)) => {
            assert_eq!(req.session.as_deref(), Some("session-123"));
            assert_eq!(req.text.as_deref(), Some("hello\n"));
        }
        _ => panic!("wrong submessage"),
    }
}

#[test]
fn get_buffer_trailing_request() {
    let msg = get_buffer_trailing("s1", 50);
    match msg.submessage {
        Some(Submessage::GetBufferRequest(req)) => {
            assert_eq!(req.session.as_deref(), Some("s1"));
            assert_eq!(req.line_range.unwrap().trailing_lines, Some(50));
        }
        _ => panic!("wrong submessage"),
    }
}

#[test]
fn get_buffer_screen_request() {
    let msg = get_buffer_screen("s1");
    match msg.submessage {
        Some(Submessage::GetBufferRequest(req)) => {
            assert_eq!(
                req.line_range.unwrap().screen_contents_only,
                Some(true)
            );
        }
        _ => panic!("wrong submessage"),
    }
}

#[test]
fn create_tab_request() {
    let msg = create_tab(Some("Default"), Some("w1"));
    match msg.submessage {
        Some(Submessage::CreateTabRequest(req)) => {
            assert_eq!(req.profile_name.as_deref(), Some("Default"));
            assert_eq!(req.window_id.as_deref(), Some("w1"));
        }
        _ => panic!("wrong submessage"),
    }
}

#[test]
fn split_pane_request() {
    let msg = split_pane(
        "s1",
        proto::split_pane_request::SplitDirection::Vertical,
        false,
        None,
    );
    match msg.submessage {
        Some(Submessage::SplitPaneRequest(req)) => {
            assert_eq!(req.session.as_deref(), Some("s1"));
            assert_eq!(req.split_direction, Some(0)); // VERTICAL = 0
            assert_eq!(req.before, Some(false));
        }
        _ => panic!("wrong submessage"),
    }
}

#[test]
fn get_profile_property_request() {
    let msg = get_profile_property("s1", vec!["Name".to_string()]);
    match msg.submessage {
        Some(Submessage::GetProfilePropertyRequest(req)) => {
            assert_eq!(req.session.as_deref(), Some("s1"));
            assert_eq!(req.keys, vec!["Name".to_string()]);
        }
        _ => panic!("wrong submessage"),
    }
}

#[test]
fn set_profile_property_request() {
    let msg = set_profile_property_session("s1", "Badge Text", r#""hello""#);
    match msg.submessage {
        Some(Submessage::SetProfilePropertyRequest(req)) => {
            assert_eq!(req.key.as_deref(), Some("Badge Text"));
            assert_eq!(req.json_value.as_deref(), Some(r#""hello""#));
        }
        _ => panic!("wrong submessage"),
    }
}

#[test]
fn variable_get_session_request() {
    let msg = get_variable_session("s1", vec!["user.foo".to_string()]);
    match msg.submessage {
        Some(Submessage::VariableRequest(req)) => {
            assert_eq!(req.get, vec!["user.foo".to_string()]);
            assert!(req.set.is_empty());
        }
        _ => panic!("wrong submessage"),
    }
}

#[test]
fn variable_set_session_request() {
    let msg = set_variable_session(
        "s1",
        vec![("user.foo".to_string(), r#""bar""#.to_string())],
    );
    match msg.submessage {
        Some(Submessage::VariableRequest(req)) => {
            assert_eq!(req.set.len(), 1);
            assert_eq!(req.set[0].name.as_deref(), Some("user.foo"));
            assert_eq!(req.set[0].value.as_deref(), Some(r#""bar""#));
        }
        _ => panic!("wrong submessage"),
    }
}

#[test]
fn transaction_begin_end() {
    let begin = begin_transaction();
    match begin.submessage {
        Some(Submessage::TransactionRequest(req)) => {
            assert_eq!(req.begin, Some(true));
        }
        _ => panic!("wrong submessage"),
    }

    let end = end_transaction();
    match end.submessage {
        Some(Submessage::TransactionRequest(req)) => {
            assert_eq!(req.begin, Some(false));
        }
        _ => panic!("wrong submessage"),
    }
}

#[test]
fn subscribe_unsubscribe_notification() {
    let sub = subscribe_notification(
        proto::NotificationType::NotifyOnNewSession,
        None,
    );
    match sub.submessage {
        Some(Submessage::NotificationRequest(req)) => {
            assert_eq!(req.subscribe, Some(true));
            assert_eq!(
                req.notification_type,
                Some(proto::NotificationType::NotifyOnNewSession.code())
            );
        }
        _ => panic!("wrong submessage"),
    }

    let unsub = unsubscribe_notification(
        proto::NotificationType::NotifyOnNewSession,
        None,
    );
    match unsub.submessage {
        Some(Submessage::NotificationRequest(req)) => {
            assert_eq!(req.subscribe, Some(false));
        }
        _ => panic!("wrong submessage"),
    }
}

#[test]
fn close_sessions_request() {
    let msg = close_sessions(vec!["s1".to_string(), "s2".to_string()], true);
    match msg.submessage {
        Some(Submessage::CloseRequest(req)) => {
            assert_eq!(req.force, Some(true));
            match req.target {
                Some(proto::close_request::Target::Sessions(s)) => {
                    assert_eq!(s.session_ids, vec!["s1", "s2"]);
                }
                _ => panic!("wrong target"),
            }
        }
        _ => panic!("wrong submessage"),
    }
}

#[test]
fn focus_request() {
    let msg = focus();
    assert!(matches!(
        msg.submessage,
        Some(Submessage::FocusRequest(_))
    ));
}

#[test]
fn activate_session_request() {
    let msg = activate_session("s1");
    match msg.submessage {
        Some(Submessage::ActivateRequest(req)) => {
            assert!(matches!(
                req.identifier,
                Some(proto::activate_request::Identifier::SessionId(_))
            ));
            assert_eq!(req.order_window_front, Some(true));
            assert_eq!(req.select_tab, Some(true));
            assert_eq!(req.select_session, Some(true));
        }
        _ => panic!("wrong submessage"),
    }
}

#[test]
fn inject_request() {
    let msg = inject(vec!["s1".to_string()], b"hello".to_vec());
    match msg.submessage {
        Some(Submessage::InjectRequest(req)) => {
            assert_eq!(req.session_id, vec!["s1"]);
            assert_eq!(req.data.as_deref(), Some(b"hello".as_slice()));
        }
        _ => panic!("wrong submessage"),
    }
}

#[test]
fn menu_item_invoke_and_query() {
    let msg = invoke_menu_item("menu.item.1");
    match msg.submessage {
        Some(Submessage::MenuItemRequest(req)) => {
            assert_eq!(req.identifier.as_deref(), Some("menu.item.1"));
            assert_eq!(req.query_only, Some(false));
        }
        _ => panic!("wrong submessage"),
    }

    let msg = query_menu_item("menu.item.1");
    match msg.submessage {
        Some(Submessage::MenuItemRequest(req)) => {
            assert_eq!(req.query_only, Some(true));
        }
        _ => panic!("wrong submessage"),
    }
}

#[test]
fn restart_session_request() {
    let msg = restart_session("s1", true);
    match msg.submessage {
        Some(Submessage::RestartSessionRequest(req)) => {
            assert_eq!(req.session_id.as_deref(), Some("s1"));
            assert_eq!(req.only_if_exited, Some(true));
        }
        _ => panic!("wrong submessage"),
    }
}

#[test]
fn saved_arrangement_list() {
    let msg = list_arrangements();
    match msg.submessage {
        Some(Submessage::SavedArrangementRequest(req)) => {
            assert_eq!(
                req.action,
                Some(proto::saved_arrangement_request::Action::List.code())
            );
        }
        _ => panic!("wrong submessage"),
    }
}

#[test]
fn broadcast_domains_request() {
    let msg = get_broadcast_domains();
    assert!(matches!(
        msg.submessage,
        Some(Submessage::GetBroadcastDomainsRequest(_))
    ));
}

#[test]
fn tmux_list_request() {
    let msg = tmux_list_connections();
    match msg.submessage {
        Some(Submessage::TmuxRequest(req)) => {
            assert!(matches!(
                req.payload,
                Some(proto::tmux_request::Payload::ListConnections(_))
            ));
        }
        _ => panic!("wrong submessage"),
    }
}

#[test]
fn list_color_presets_request() {
    let msg = list_color_presets();
    match msg.submessage {
        Some(Submessage::ColorPresetRequest(req)) => {
            assert!(matches!(
                req.request,
                Some(proto::color_preset_request::Request::ListPresets(_))
            ));
        }
        _ => panic!("wrong submessage"),
    }
}

#[test]
fn get_selection_request() {
    let msg = get_selection("s1");
    match msg.submessage {
        Some(Submessage::SelectionRequest(req)) => {
            assert!(matches!(
                req.request,
                Some(proto::selection_request::Request::GetSelectionRequest(_))
            ));
        }
        _ => panic!("wrong submessage"),
    }
}

#[test]
fn invoke_function_app_request() {
    let msg = invoke_function_app("test()");
    match msg.submessage {
        Some(Submessage::InvokeFunctionRequest(req)) => {
            assert_eq!(req.invocation.as_deref(), Some("test()"));
            assert!(matches!(
                req.context,
                Some(proto::invoke_function_request::Context::App(_))
            ));
        }
        _ => panic!("wrong submessage"),
    }
}

#[test]
fn rpc_result_value_request() {
    let msg = rpc_result_value("req-1", r#""ok""#);
    match msg.submessage {
        Some(Submessage::ServerOriginatedRpcResultRequest(req)) => {
            assert_eq!(req.request_id.as_deref(), Some("req-1"));
        }
        _ => panic!("wrong submessage"),
    }
}

#[test]
fn list_profiles_request() {
    let msg = list_profiles(vec![], vec![]);
    assert!(matches!(
        msg.submessage,
        Some(Submessage::ListProfilesRequest(_))
    ));
}

#[test]
fn get_preference_request() {
    let msg = get_preference("SomeKey");
    assert!(matches!(
        msg.submessage,
        Some(Submessage::PreferencesRequest(_))
    ));
}

#[test]
fn register_tool_request() {
    let msg = register_tool("My Tool", "com.example.tool", "http://localhost:8080");
    match msg.submessage {
        Some(Submessage::RegisterToolRequest(req)) => {
            assert_eq!(req.name.as_deref(), Some("My Tool"));
            assert_eq!(req.identifier.as_deref(), Some("com.example.tool"));
        }
        _ => panic!("wrong submessage"),
    }
}

#[test]
fn get_property_window_request() {
    let msg = get_property_window("w1", "frame");
    match msg.submessage {
        Some(Submessage::GetPropertyRequest(req)) => {
            assert_eq!(req.name.as_deref(), Some("frame"));
            assert!(matches!(
                req.identifier,
                Some(proto::get_property_request::Identifier::WindowId(_))
            ));
        }
        _ => panic!("wrong submessage"),
    }
}

#[test]
fn set_property_window_request() {
    let msg = set_property_window("w1", "fullscreen", "true");
    match msg.submessage {
        Some(Submessage::SetPropertyRequest(req)) => {
            assert_eq!(req.name.as_deref(), Some("fullscreen"));
            assert_eq!(req.json_value.as_deref(), Some("true"));
        }
        _ => panic!("wrong submessage"),
    }
}
