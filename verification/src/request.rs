//! Builders for every request of the iTerm2 API.
//!
//! Each builder returns a client message whose `id` is left empty (the
//! connection assigns it when sending) and whose submessage is the request
//! with exactly the fields its contract lists; every field it does not
//! mention is empty.
use vstd::prelude::*;
use crate::proto;
use crate::proto::client_originated_message::Submessage;

verus! {

/// `o` holds a string whose text is `s`.
pub open spec fn has_text(o: Option<String>, s: Seq<char>) -> bool {
    o matches Some(x) && x@ == s
}

/// `o` holds the text of `s` when `s` is given, and nothing otherwise.
pub open spec fn has_opt_text(o: Option<String>, s: Option<&str>) -> bool {
    match s {
        Some(t) => has_text(o, t@),
        None => o is None,
    }
}

/// `msg` is a fresh request (no id yet) carrying `sub`.
pub open spec fn carries(msg: proto::ClientOriginatedMessage, sub: Submessage) -> bool {
    msg.id is None && msg.submessage == Some(sub)
}

fn text(s: &str) -> (r: String)
    ensures
        r@ == s@,
{
    s.to_string()
}

fn opt_text(s: Option<&str>) -> (r: Option<String>)
    ensures
        has_opt_text(r, s),
{
    match s {
        Some(t) => Some(t.to_string()),
        None => None,
    }
}

fn wrap(submessage: Submessage) -> (msg: proto::ClientOriginatedMessage)
    ensures
        carries(msg, submessage),
{
    proto::ClientOriginatedMessage { id: None, submessage: Some(submessage) }
}

// --- Session operations ---

pub fn list_sessions() -> (msg: proto::ClientOriginatedMessage)
    ensures
        carries(msg, Submessage::ListSessionsRequest(proto::ListSessionsRequest {})),
{
    wrap(Submessage::ListSessionsRequest(proto::ListSessionsRequest {}))
}

pub fn send_text(session_id: &str, text: &str) -> (msg: proto::ClientOriginatedMessage)
    ensures
        msg.id is None,
        msg.submessage matches Some(Submessage::SendTextRequest(r)) && has_text(r.session, session_id@)
            && has_text(r.text, text@) && r.suppress_broadcast is None,
{
    wrap(
        Submessage::SendTextRequest(
            proto::SendTextRequest {
                session: Some(self::text(session_id)),
                text: Some(self::text(text)),
                suppress_broadcast: None,
            },
        ),
    )
}

pub fn get_buffer(session_id: &str, line_range: Option<proto::LineRange>) -> (msg:
    proto::ClientOriginatedMessage)
    ensures
        msg.id is None,
        msg.submessage matches Some(Submessage::GetBufferRequest(r)) && has_text(r.session, session_id@)
            && r.line_range == line_range && r.include_styles == Some(false),
{
    wrap(
        Submessage::GetBufferRequest(
            proto::GetBufferRequest {
                session: Some(text(session_id)),
                line_range,
                include_styles: Some(false),
            },
        ),
    )
}

/// Reads the last `lines` lines of the session's buffer.
pub fn get_buffer_trailing(session_id: &str, lines: i32) -> (msg: proto::ClientOriginatedMessage)
    ensures
        msg.id is None,
        msg.submessage matches Some(Submessage::GetBufferRequest(r)) && has_text(r.session, session_id@)
            && r.line_range == Some(
            proto::LineRange {
                screen_contents_only: None,
                trailing_lines: Some(lines),
                windowed_coord_range: None,
            },
        ) && r.include_styles == Some(false),
{
    get_buffer(
        session_id,
        Some(
            proto::LineRange {
                screen_contents_only: None,
                trailing_lines: Some(lines),
                windowed_coord_range: None,
            },
        ),
    )
}

/// Reads the lines currently on screen.
pub fn get_buffer_screen(session_id: &str) -> (msg: proto::ClientOriginatedMessage)
    ensures
        msg.id is None,
        msg.submessage matches Some(Submessage::GetBufferRequest(r)) && has_text(r.session, session_id@)
            && r.line_range == Some(
            proto::LineRange {
                screen_contents_only: Some(true),
                trailing_lines: None,
                windowed_coord_range: None,
            },
        ) && r.include_styles == Some(false),
{
    get_buffer(
        session_id,
        Some(
            proto::LineRange {
                screen_contents_only: Some(true),
                trailing_lines: None,
                windowed_coord_range: None,
            },
        ),
    )
}

pub fn get_prompt(session_id: &str) -> (msg: proto::ClientOriginatedMessage)
    ensures
        msg.id is None,
        msg.submessage matches Some(Submessage::GetPromptRequest(r)) && has_text(r.session, session_id@)
            && r.unique_prompt_id is None,
{
    wrap(
        Submessage::GetPromptRequest(
            proto::GetPromptRequest { session: Some(text(session_id)), unique_prompt_id: None },
        ),
    )
}

pub fn get_prompt_by_id(session_id: &str, prompt_id: &str) -> (msg: proto::ClientOriginatedMessage)
    ensures
        msg.id is None,
        msg.submessage matches Some(Submessage::GetPromptRequest(r)) && has_text(r.session, session_id@)
            && has_text(r.unique_prompt_id, prompt_id@),
{
    wrap(
        Submessage::GetPromptRequest(
            proto::GetPromptRequest {
                session: Some(text(session_id)),
                unique_prompt_id: Some(text(prompt_id)),
            },
        ),
    )
}

pub fn list_prompts(session_id: &str) -> (msg: proto::ClientOriginatedMessage)
    ensures
        msg.id is None,
        msg.submessage matches Some(Submessage::ListPromptsRequest(r)) && has_text(r.session, session_id@)
            && r.first_unique_id is None && r.last_unique_id is None,
{
    wrap(
        Submessage::ListPromptsRequest(
            proto::ListPromptsRequest {
                session: Some(text(session_id)),
                first_unique_id: None,
                last_unique_id: None,
            },
        ),
    )
}

// --- Tab operations ---

pub fn create_tab(profile_name: Option<&str>, window_id: Option<&str>) -> (msg:
    proto::ClientOriginatedMessage)
    ensures
        msg.id is None,
        msg.submessage matches Some(Submessage::CreateTabRequest(r)) && has_opt_text(
            r.profile_name,
            profile_name,
        ) && has_opt_text(r.window_id, window_id) && r.tab_index is None && r.command is None
            && r.custom_profile_properties@.len() == 0,
{
    wrap(
        Submessage::CreateTabRequest(
            proto::CreateTabRequest {
                profile_name: opt_text(profile_name),
                window_id: opt_text(window_id),
                tab_index: None,
                command: None,
                custom_profile_properties: Vec::new(),
            },
        ),
    )
}

pub fn split_pane(
    session_id: &str,
    direction: proto::split_pane_request::SplitDirection,
    before: bool,
    profile_name: Option<&str>,
) -> (msg: proto::ClientOriginatedMessage)
    ensures
        msg.id is None,
        msg.submessage matches Some(Submessage::SplitPaneRequest(r)) && has_text(r.session, session_id@)
            && r.split_direction == Some(direction.spec_code()) && r.before == Some(before)
            && has_opt_text(r.profile_name, profile_name) && r.custom_profile_properties@.len() == 0,
{
    wrap(
        Submessage::SplitPaneRequest(
            proto::SplitPaneRequest {
                session: Some(text(session_id)),
                split_direction: Some(direction.code()),
                before: Some(before),
                profile_name: opt_text(profile_name),
                custom_profile_properties: Vec::new(),
            },
        ),
    )
}

// --- Profile operations ---

pub fn get_profile_property(session_id: &str, keys: Vec<String>) -> (msg:
    proto::ClientOriginatedMessage)
    ensures
        msg.id is None,
        msg.submessage matches Some(Submessage::GetProfilePropertyRequest(r)) && has_text(
            r.session,
            session_id@,
        ) && r.keys == keys,
{
    wrap(
        Submessage::GetProfilePropertyRequest(
            proto::GetProfilePropertyRequest { session: Some(text(session_id)), keys },
        ),
    )
}

pub fn set_profile_property_session(session_id: &str, key: &str, json_value: &str) -> (msg:
    proto::ClientOriginatedMessage)
    ensures
        msg.id is None,
        msg.submessage matches Some(Submessage::SetProfilePropertyRequest(r)) && r.target matches Some(
            proto::set_profile_property_request::Target::Session(s),
        ) && s@ == session_id@ && has_text(r.key, key@) && has_text(r.json_value, json_value@)
            && r.assignments@.len() == 0,
{
    wrap(
        Submessage::SetProfilePropertyRequest(
            proto::SetProfilePropertyRequest {
                target: Some(proto::set_profile_property_request::Target::Session(text(session_id))),
                key: Some(text(key)),
                json_value: Some(text(json_value)),
                assignments: Vec::new(),
            },
        ),
    )
}

pub fn list_profiles(properties: Vec<String>, guids: Vec<String>) -> (msg:
    proto::ClientOriginatedMessage)
    ensures
        carries(
            msg,
            Submessage::ListProfilesRequest(proto::ListProfilesRequest { properties, guids }),
        ),
{
    wrap(Submessage::ListProfilesRequest(proto::ListProfilesRequest { properties, guids }))
}

// --- Property operations ---

pub fn get_property_window(window_id: &str, name: &str) -> (msg: proto::ClientOriginatedMessage)
    ensures
        msg.id is None,
        msg.submessage matches Some(Submessage::GetPropertyRequest(r)) && r.identifier matches Some(
            proto::get_property_request::Identifier::WindowId(w),
        ) && w@ == window_id@ && has_text(r.name, name@),
{
    wrap(
        Submessage::GetPropertyRequest(
            proto::GetPropertyRequest {
                identifier: Some(proto::get_property_request::Identifier::WindowId(text(window_id))),
                name: Some(text(name)),
            },
        ),
    )
}

pub fn get_property_session(session_id: &str, name: &str) -> (msg: proto::ClientOriginatedMessage)
    ensures
        msg.id is None,
        msg.submessage matches Some(Submessage::GetPropertyRequest(r)) && r.identifier matches Some(
            proto::get_property_request::Identifier::SessionId(s),
        ) && s@ == session_id@ && has_text(r.name, name@),
{
    wrap(
        Submessage::GetPropertyRequest(
            proto::GetPropertyRequest {
                identifier: Some(
                    proto::get_property_request::Identifier::SessionId(text(session_id)),
                ),
                name: Some(text(name)),
            },
        ),
    )
}

pub fn set_property_window(window_id: &str, name: &str, json_value: &str) -> (msg:
    proto::ClientOriginatedMessage)
    ensures
        msg.id is None,
        msg.submessage matches Some(Submessage::SetPropertyRequest(r)) && r.identifier matches Some(
            proto::set_property_request::Identifier::WindowId(w),
        ) && w@ == window_id@ && has_text(r.name, name@) && has_text(r.json_value, json_value@),
{
    wrap(
        Submessage::SetPropertyRequest(
            proto::SetPropertyRequest {
                identifier: Some(proto::set_property_request::Identifier::WindowId(text(window_id))),
                name: Some(text(name)),
                json_value: Some(text(json_value)),
            },
        ),
    )
}

pub fn set_property_session(session_id: &str, name: &str, json_value: &str) -> (msg:
    proto::ClientOriginatedMessage)
    ensures
        msg.id is None,
        msg.submessage matches Some(Submessage::SetPropertyRequest(r)) && r.identifier matches Some(
            proto::set_property_request::Identifier::SessionId(s),
        ) && s@ == session_id@ && has_text(r.name, name@) && has_text(r.json_value, json_value@),
{
    wrap(
        Submessage::SetPropertyRequest(
            proto::SetPropertyRequest {
                identifier: Some(
                    proto::set_property_request::Identifier::SessionId(text(session_id)),
                ),
                name: Some(text(name)),
                json_value: Some(text(json_value)),
            },
        ),
    )
}

// --- Variable operations ---

pub fn get_variable_session(session_id: &str, names: Vec<String>) -> (msg:
    proto::ClientOriginatedMessage)
    ensures
        msg.id is None,
        msg.submessage matches Some(Submessage::VariableRequest(r)) && r.scope matches Some(
            proto::variable_request::Scope::SessionId(s),
        ) && s@ == session_id@ && r.set@.len() == 0 && r.get == names,
{
    wrap(
        Submessage::VariableRequest(
            proto::VariableRequest {
                scope: Some(proto::variable_request::Scope::SessionId(text(session_id))),
                set: Vec::new(),
                get: names,
            },
        ),
    )
}

/// Assigns each `(name, json_value)` pair of `sets`, in order, to a variable
/// of the session.
pub fn set_variable_session(session_id: &str, sets: Vec<(String, String)>) -> (msg:
    proto::ClientOriginatedMessage)
    ensures
        msg.id is None,
        msg.submessage matches Some(Submessage::VariableRequest(r)) && r.scope matches Some(
            proto::variable_request::Scope::SessionId(s),
        ) && s@ == session_id@ && r.get@.len() == 0 && r.set@.len() == sets@.len() && (forall|i: int|
            0 <= i < sets@.len() ==> #[trigger] r.set@[i] == (proto::variable_request::SetVariable {
                name: Some(sets@[i].0),
                value: Some(sets@[i].1),
            })),
{
    let mut set: Vec<proto::variable_request::SetVariable> = Vec::new();
    let mut i: usize = 0;
    while i < sets.len()
        invariant
            i <= sets@.len(),
            set@.len() == i,
            forall|j: int|
                0 <= j < i ==> #[trigger] set@[j] == (proto::variable_request::SetVariable {
                    name: Some(sets@[j].0),
                    value: Some(sets@[j].1),
                }),
        decreases sets@.len() - i,
    {
        let name = sets[i].0.clone();
        let value = sets[i].1.clone();
        set.push(proto::variable_request::SetVariable { name: Some(name), value: Some(value) });
        i = i + 1;
    }
    wrap(
        Submessage::VariableRequest(
            proto::VariableRequest {
                scope: Some(proto::variable_request::Scope::SessionId(text(session_id))),
                set,
                get: Vec::new(),
            },
        ),
    )
}

pub fn get_variable_app(names: Vec<String>) -> (msg: proto::ClientOriginatedMessage)
    ensures
        msg.id is None,
        msg.submessage matches Some(Submessage::VariableRequest(r)) && r.scope == Some(
            proto::variable_request::Scope::App(true),
        ) && r.set@.len() == 0 && r.get == names,
{
    wrap(
        Submessage::VariableRequest(
            proto::VariableRequest {
                scope: Some(proto::variable_request::Scope::App(true)),
                set: Vec::new(),
                get: names,
            },
        ),
    )
}

pub fn get_variable_tab(tab_id: &str, names: Vec<String>) -> (msg: proto::ClientOriginatedMessage)
    ensures
        msg.id is None,
        msg.submessage matches Some(Submessage::VariableRequest(r)) && r.scope matches Some(
            proto::variable_request::Scope::TabId(t),
        ) && t@ == tab_id@ && r.set@.len() == 0 && r.get == names,
{
    wrap(
        Submessage::VariableRequest(
            proto::VariableRequest {
                scope: Some(proto::variable_request::Scope::TabId(text(tab_id))),
                set: Vec::new(),
                get: names,
            },
        ),
    )
}

pub fn get_variable_window(window_id: &str, names: Vec<String>) -> (msg:
    proto::ClientOriginatedMessage)
    ensures
        msg.id is None,
        msg.submessage matches Some(Submessage::VariableRequest(r)) && r.scope matches Some(
            proto::variable_request::Scope::WindowId(w),
        ) && w@ == window_id@ && r.set@.len() == 0 && r.get == names,
{
    wrap(
        Submessage::VariableRequest(
            proto::VariableRequest {
                scope: Some(proto::variable_request::Scope::WindowId(text(window_id))),
                set: Vec::new(),
                get: names,
            },
        ),
    )
}

// --- Activate operations ---

pub fn activate_session(session_id: &str) -> (msg: proto::ClientOriginatedMessage)
    ensures
        msg.id is None,
        msg.submessage matches Some(Submessage::ActivateRequest(r)) && r.identifier matches Some(
            proto::activate_request::Identifier::SessionId(s),
        ) && s@ == session_id@ && r.order_window_front == Some(true) && r.select_tab == Some(true)
            && r.select_session == Some(true) && r.activate_app is None,
{
    wrap(
        Submessage::ActivateRequest(
            proto::ActivateRequest {
                identifier: Some(proto::activate_request::Identifier::SessionId(text(session_id))),
                order_window_front: Some(true),
                select_tab: Some(true),
                select_session: Some(true),
                activate_app: None,
            },
        ),
    )
}

pub fn activate_tab(tab_id: &str) -> (msg: proto::ClientOriginatedMessage)
    ensures
        msg.id is None,
        msg.submessage matches Some(Submessage::ActivateRequest(r)) && r.identifier matches Some(
            proto::activate_request::Identifier::TabId(t),
        ) && t@ == tab_id@ && r.order_window_front == Some(true) && r.select_tab == Some(true)
            && r.select_session is None && r.activate_app is None,
{
    wrap(
        Submessage::ActivateRequest(
            proto::ActivateRequest {
                identifier: Some(proto::activate_request::Identifier::TabId(text(tab_id))),
                order_window_front: Some(true),
                select_tab: Some(true),
                select_session: None,
                activate_app: None,
            },
        ),
    )
}

pub fn activate_window(window_id: &str) -> (msg: proto::ClientOriginatedMessage)
    ensures
        msg.id is None,
        msg.submessage matches Some(Submessage::ActivateRequest(r)) && r.identifier matches Some(
            proto::activate_request::Identifier::WindowId(w),
        ) && w@ == window_id@ && r.order_window_front == Some(true) && r.select_tab is None
            && r.select_session is None && r.activate_app is None,
{
    wrap(
        Submessage::ActivateRequest(
            proto::ActivateRequest {
                identifier: Some(proto::activate_request::Identifier::WindowId(text(window_id))),
                order_window_front: Some(true),
                select_tab: None,
                select_session: None,
                activate_app: None,
            },
        ),
    )
}

pub fn activate_app(raise_all: bool, ignoring_other_apps: bool) -> (msg:
    proto::ClientOriginatedMessage)
    ensures
        carries(
            msg,
            Submessage::ActivateRequest(
                proto::ActivateRequest {
                    identifier: None,
                    order_window_front: None,
                    select_tab: None,
                    select_session: None,
                    activate_app: Some(
                        proto::activate_request::App {
                            raise_all_windows: Some(raise_all),
                            ignoring_other_apps: Some(ignoring_other_apps),
                        },
                    ),
                },
            ),
        ),
{
    wrap(
        Submessage::ActivateRequest(
            proto::ActivateRequest {
                identifier: None,
                order_window_front: None,
                select_tab: None,
                select_session: None,
                activate_app: Some(
                    proto::activate_request::App {
                        raise_all_windows: Some(raise_all),
                        ignoring_other_apps: Some(ignoring_other_apps),
                    },
                ),
            },
        ),
    )
}

// --- Transaction operations ---

pub fn begin_transaction() -> (msg: proto::ClientOriginatedMessage)
    ensures
        carries(
            msg,
            Submessage::TransactionRequest(proto::TransactionRequest { begin: Some(true) }),
        ),
{
    wrap(Submessage::TransactionRequest(proto::TransactionRequest { begin: Some(true) }))
}

pub fn end_transaction() -> (msg: proto::ClientOriginatedMessage)
    ensures
        carries(
            msg,
            Submessage::TransactionRequest(proto::TransactionRequest { begin: Some(false) }),
        ),
{
    wrap(Submessage::TransactionRequest(proto::TransactionRequest { begin: Some(false) }))
}

// --- Notification subscription ---

pub fn subscribe_notification(
    notification_type: proto::NotificationType,
    session_id: Option<&str>,
) -> (msg: proto::ClientOriginatedMessage)
    ensures
        msg.id is None,
        msg.submessage matches Some(Submessage::NotificationRequest(r)) && has_opt_text(
            r.session,
            session_id,
        ) && r.subscribe == Some(true) && r.notification_type == Some(
            notification_type.spec_code(),
        ) && r.arguments is None,
{
    wrap(
        Submessage::NotificationRequest(
            proto::NotificationRequest {
                session: opt_text(session_id),
                subscribe: Some(true),
                notification_type: Some(notification_type.code()),
                arguments: None,
            },
        ),
    )
}

pub fn unsubscribe_notification(
    notification_type: proto::NotificationType,
    session_id: Option<&str>,
) -> (msg: proto::ClientOriginatedMessage)
    ensures
        msg.id is None,
        msg.submessage matches Some(Submessage::NotificationRequest(r)) && has_opt_text(
            r.session,
            session_id,
        ) && r.subscribe == Some(false) && r.notification_type == Some(
            notification_type.spec_code(),
        ) && r.arguments is None,
{
    wrap(
        Submessage::NotificationRequest(
            proto::NotificationRequest {
                session: opt_text(session_id),
                subscribe: Some(false),
                notification_type: Some(notification_type.code()),
                arguments: None,
            },
        ),
    )
}

// --- Inject ---

/// Injects `data` into each of the sessions as if the program running there
/// had written it.
pub fn inject(session_ids: Vec<String>, data: Vec<u8>) -> (msg: proto::ClientOriginatedMessage)
    ensures
        carries(
            msg,
            Submessage::InjectRequest(
                proto::InjectRequest { session_id: session_ids, data: Some(data) },
            ),
        ),
{
    wrap(
        Submessage::InjectRequest(proto::InjectRequest { session_id: session_ids, data: Some(data) }),
    )
}

// --- Close ---

pub fn close_sessions(session_ids: Vec<String>, force: bool) -> (msg: proto::ClientOriginatedMessage)
    ensures
        carries(
            msg,
            Submessage::CloseRequest(
                proto::CloseRequest {
                    target: Some(
                        proto::close_request::Target::Sessions(
                            proto::close_request::CloseSessions { session_ids },
                        ),
                    ),
                    force: Some(force),
                },
            ),
        ),
{
    wrap(
        Submessage::CloseRequest(
            proto::CloseRequest {
                target: Some(
                    proto::close_request::Target::Sessions(
                        proto::close_request::CloseSessions { session_ids },
                    ),
                ),
                force: Some(force),
            },
        ),
    )
}

pub fn close_tabs(tab_ids: Vec<String>, force: bool) -> (msg: proto::ClientOriginatedMessage)
    ensures
        carries(
            msg,
            Submessage::CloseRequest(
                proto::CloseRequest {
                    target: Some(
                        proto::close_request::Target::Tabs(proto::close_request::CloseTabs { tab_ids }),
                    ),
                    force: Some(force),
                },
            ),
        ),
{
    wrap(
        Submessage::CloseRequest(
            proto::CloseRequest {
                target: Some(
                    proto::close_request::Target::Tabs(proto::close_request::CloseTabs { tab_ids }),
                ),
                force: Some(force),
            },
        ),
    )
}

pub fn close_windows(window_ids: Vec<String>, force: bool) -> (msg: proto::ClientOriginatedMessage)
    ensures
        carries(
            msg,
            Submessage::CloseRequest(
                proto::CloseRequest {
                    target: Some(
                        proto::close_request::Target::Windows(
                            proto::close_request::CloseWindows { window_ids },
                        ),
                    ),
                    force: Some(force),
                },
            ),
        ),
{
    wrap(
        Submessage::CloseRequest(
            proto::CloseRequest {
                target: Some(
                    proto::close_request::Target::Windows(
                        proto::close_request::CloseWindows { window_ids },
                    ),
                ),
                force: Some(force),
            },
        ),
    )
}

// --- Focus ---

pub fn focus() -> (msg: proto::ClientOriginatedMessage)
    ensures
        carries(msg, Submessage::FocusRequest(proto::FocusRequest {})),
{
    wrap(Submessage::FocusRequest(proto::FocusRequest {}))
}

// --- Saved arrangements ---

pub fn restore_arrangement(name: &str, window_id: Option<&str>) -> (msg:
    proto::ClientOriginatedMessage)
    ensures
        msg.id is None,
        msg.submessage matches Some(Submessage::SavedArrangementRequest(r)) && has_text(r.name, name@)
            && r.action == Some(proto::saved_arrangement_request::Action::Restore.spec_code())
            && has_opt_text(r.window_id, window_id),
{
    wrap(
        Submessage::SavedArrangementRequest(
            proto::SavedArrangementRequest {
                name: Some(text(name)),
                action: Some(proto::saved_arrangement_request::Action::Restore.code()),
                window_id: opt_text(window_id),
            },
        ),
    )
}

pub fn save_arrangement(name: &str, window_id: Option<&str>) -> (msg: proto::ClientOriginatedMessage)
    ensures
        msg.id is None,
        msg.submessage matches Some(Submessage::SavedArrangementRequest(r)) && has_text(r.name, name@)
            && r.action == Some(proto::saved_arrangement_request::Action::Save.spec_code())
            && has_opt_text(r.window_id, window_id),
{
    wrap(
        Submessage::SavedArrangementRequest(
            proto::SavedArrangementRequest {
                name: Some(text(name)),
                action: Some(proto::saved_arrangement_request::Action::Save.code()),
                window_id: opt_text(window_id),
            },
        ),
    )
}

pub fn list_arrangements() -> (msg: proto::ClientOriginatedMessage)
    ensures
        carries(
            msg,
            Submessage::SavedArrangementRequest(
                proto::SavedArrangementRequest {
                    name: None,
                    action: Some(proto::saved_arrangement_request::Action::List.spec_code()),
                    window_id: None,
                },
            ),
        ),
{
    wrap(
        Submessage::SavedArrangementRequest(
            proto::SavedArrangementRequest {
                name: None,
                action: Some(proto::saved_arrangement_request::Action::List.code()),
                window_id: None,
            },
        ),
    )
}

// --- Menu item ---

pub fn invoke_menu_item(identifier: &str) -> (msg: proto::ClientOriginatedMessage)
    ensures
        msg.id is None,
        msg.submessage matches Some(Submessage::MenuItemRequest(r)) && has_text(
            r.identifier,
            identifier@,
        ) && r.query_only == Some(false),
{
    wrap(
        Submessage::MenuItemRequest(
            proto::MenuItemRequest { identifier: Some(text(identifier)), query_only: Some(false) },
        ),
    )
}

pub fn query_menu_item(identifier: &str) -> (msg: proto::ClientOriginatedMessage)
    ensures
        msg.id is None,
        msg.submessage matches Some(Submessage::MenuItemRequest(r)) && has_text(
            r.identifier,
            identifier@,
        ) && r.query_only == Some(true),
{
    wrap(
        Submessage::MenuItemRequest(
            proto::MenuItemRequest { identifier: Some(text(identifier)), query_only: Some(true) },
        ),
    )
}

// --- Restart session ---

pub fn restart_session(session_id: &str, only_if_exited: bool) -> (msg:
    proto::ClientOriginatedMessage)
    ensures
        msg.id is None,
        msg.submessage matches Some(Submessage::RestartSessionRequest(r)) && has_text(
            r.session_id,
            session_id@,
        ) && r.only_if_exited == Some(only_if_exited),
{
    wrap(
        Submessage::RestartSessionRequest(
            proto::RestartSessionRequest {
                session_id: Some(text(session_id)),
                only_if_exited: Some(only_if_exited),
            },
        ),
    )
}

// --- Register tool ---

/// Registers a web-view tool showing `url` in the toolbelt.
pub fn register_tool(name: &str, identifier: &str, url: &str) -> (msg: proto::ClientOriginatedMessage)
    ensures
        msg.id is None,
        msg.submessage matches Some(Submessage::RegisterToolRequest(r)) && has_text(r.name, name@)
            && has_text(r.identifier, identifier@) && r.tool_type == Some(
            proto::register_tool_request::ToolType::WebViewTool.spec_code(),
        ) && r.reveal_if_already_registered == Some(false) && has_text(r.url, url@),
{
    wrap(
        Submessage::RegisterToolRequest(
            proto::RegisterToolRequest {
                name: Some(text(name)),
                identifier: Some(text(identifier)),
                tool_type: Some(proto::register_tool_request::ToolType::WebViewTool.code()),
                reveal_if_already_registered: Some(false),
                url: Some(text(url)),
            },
        ),
    )
}

// --- Set tab layout ---

pub fn set_tab_layout(tab_id: &str, root: proto::SplitTreeNode) -> (msg:
    proto::ClientOriginatedMessage)
    ensures
        msg.id is None,
        msg.submessage matches Some(Submessage::SetTabLayoutRequest(r)) && has_text(r.tab_id, tab_id@)
            && r.root == Some(root),
{
    wrap(
        Submessage::SetTabLayoutRequest(
            proto::SetTabLayoutRequest { tab_id: Some(text(tab_id)), root: Some(root) },
        ),
    )
}

// --- Broadcast domains ---

pub fn get_broadcast_domains() -> (msg: proto::ClientOriginatedMessage)
    ensures
        carries(msg, Submessage::GetBroadcastDomainsRequest(proto::GetBroadcastDomainsRequest {})),
{
    wrap(Submessage::GetBroadcastDomainsRequest(proto::GetBroadcastDomainsRequest {}))
}

pub fn set_broadcast_domains(domains: Vec<proto::BroadcastDomain>) -> (msg:
    proto::ClientOriginatedMessage)
    ensures
        carries(
            msg,
            Submessage::SetBroadcastDomainsRequest(
                proto::SetBroadcastDomainsRequest { broadcast_domains: domains },
            ),
        ),
{
    wrap(
        Submessage::SetBroadcastDomainsRequest(
            proto::SetBroadcastDomainsRequest { broadcast_domains: domains },
        ),
    )
}

// --- Tmux ---

pub fn tmux_list_connections() -> (msg: proto::ClientOriginatedMessage)
    ensures
        carries(
            msg,
            Submessage::TmuxRequest(
                proto::TmuxRequest {
                    payload: Some(
                        proto::tmux_request::Payload::ListConnections(
                            proto::tmux_request::ListConnections {},
                        ),
                    ),
                },
            ),
        ),
{
    wrap(
        Submessage::TmuxRequest(
            proto::TmuxRequest {
                payload: Some(
                    proto::tmux_request::Payload::ListConnections(
                        proto::tmux_request::ListConnections {},
                    ),
                ),
            },
        ),
    )
}

pub fn tmux_send_command(connection_id: &str, command: &str) -> (msg: proto::ClientOriginatedMessage)
    ensures
        msg.id is None,
        msg.submessage matches Some(Submessage::TmuxRequest(r)) && r.payload matches Some(
            proto::tmux_request::Payload::SendCommand(c),
        ) && has_text(c.connection_id, connection_id@) && has_text(c.command, command@),
{
    wrap(
        Submessage::TmuxRequest(
            proto::TmuxRequest {
                payload: Some(
                    proto::tmux_request::Payload::SendCommand(
                        proto::tmux_request::SendCommand {
                            connection_id: Some(text(connection_id)),
                            command: Some(text(command)),
                        },
                    ),
                ),
            },
        ),
    )
}

// --- Reorder tabs ---

pub fn reorder_tabs(assignments: Vec<proto::reorder_tabs_request::Assignment>) -> (msg:
    proto::ClientOriginatedMessage)
    ensures
        carries(msg, Submessage::ReorderTabsRequest(proto::ReorderTabsRequest { assignments })),
{
    wrap(Submessage::ReorderTabsRequest(proto::ReorderTabsRequest { assignments }))
}

// --- Preferences ---

/// Asks for the value of one preference.
pub fn get_preference(key: &str) -> (msg: proto::ClientOriginatedMessage)
    ensures
        msg.id is None,
        msg.submessage matches Some(Submessage::PreferencesRequest(r)) && r.requests@.len() == 1,
        msg.submessage matches Some(Submessage::PreferencesRequest(r)) && r.requests@[0].request matches Some(
            proto::preferences_request::request::Request::GetPreferenceRequest(g),
        ) && has_text(g.key, key@),
{
    let mut requests: Vec<proto::preferences_request::Request> = Vec::new();
    requests.push(
        proto::preferences_request::Request {
            request: Some(
                proto::preferences_request::request::Request::GetPreferenceRequest(
                    proto::preferences_request::request::GetPreference { key: Some(text(key)) },
                ),
            ),
        },
    );
    wrap(Submessage::PreferencesRequest(proto::PreferencesRequest { requests }))
}

// --- Color presets ---

pub fn list_color_presets() -> (msg: proto::ClientOriginatedMessage)
    ensures
        carries(
            msg,
            Submessage::ColorPresetRequest(
                proto::ColorPresetRequest {
                    request: Some(
                        proto::color_preset_request::Request::ListPresets(
                            proto::color_preset_request::ListPresets {},
                        ),
                    ),
                },
            ),
        ),
{
    wrap(
        Submessage::ColorPresetRequest(
            proto::ColorPresetRequest {
                request: Some(
                    proto::color_preset_request::Request::ListPresets(
                        proto::color_preset_request::ListPresets {},
                    ),
                ),
            },
        ),
    )
}

pub fn get_color_preset(name: &str) -> (msg: proto::ClientOriginatedMessage)
    ensures
        msg.id is None,
        msg.submessage matches Some(Submessage::ColorPresetRequest(r)) && r.request matches Some(
            proto::color_preset_request::Request::GetPreset(g),
        ) && has_text(g.name, name@),
{
    wrap(
        Submessage::ColorPresetRequest(
            proto::ColorPresetRequest {
                request: Some(
                    proto::color_preset_request::Request::GetPreset(
                        proto::color_preset_request::GetPreset { name: Some(text(name)) },
                    ),
                ),
            },
        ),
    )
}

// --- Selection ---

pub fn get_selection(session_id: &str) -> (msg: proto::ClientOriginatedMessage)
    ensures
        msg.id is None,
        msg.submessage matches Some(Submessage::SelectionRequest(r)) && r.request matches Some(
            proto::selection_request::Request::GetSelectionRequest(g),
        ) && has_text(g.session_id, session_id@),
{
    wrap(
        Submessage::SelectionRequest(
            proto::SelectionRequest {
                request: Some(
                    proto::selection_request::Request::GetSelectionRequest(
                        proto::selection_request::GetSelectionRequest {
                            session_id: Some(text(session_id)),
                        },
                    ),
                ),
            },
        ),
    )
}

pub fn set_selection(session_id: &str, selection: proto::Selection) -> (msg:
    proto::ClientOriginatedMessage)
    ensures
        msg.id is None,
        msg.submessage matches Some(Submessage::SelectionRequest(r)) && r.request matches Some(
            proto::selection_request::Request::SetSelectionRequest(q),
        ) && has_text(q.session_id, session_id@) && q.selection == Some(selection),
{
    wrap(
        Submessage::SelectionRequest(
            proto::SelectionRequest {
                request: Some(
                    proto::selection_request::Request::SetSelectionRequest(
                        proto::selection_request::SetSelectionRequest {
                            session_id: Some(text(session_id)),
                            selection: Some(selection),
                        },
                    ),
                ),
            },
        ),
    )
}

// --- Status bar component ---

/// Opens a popover of the given size showing `html`, attached to a status
/// bar component.
pub fn open_status_bar_popover(
    identifier: &str,
    session_id: &str,
    html: &str,
    width: i32,
    height: i32,
) -> (msg: proto::ClientOriginatedMessage)
    ensures
        msg.id is None,
        msg.submessage matches Some(Submessage::StatusBarComponentRequest(r)) && r.request matches Some(
            proto::status_bar_component_request::Request::OpenPopover(p),
        ) && has_text(r.identifier, identifier@) && has_text(p.session_id, session_id@) && has_text(p.html, html@) && p.size == Some(
            proto::Size { width: Some(width), height: Some(height) },
        ),
{
    wrap(
        Submessage::StatusBarComponentRequest(
            proto::StatusBarComponentRequest {
                request: Some(
                    proto::status_bar_component_request::Request::OpenPopover(
                        proto::status_bar_component_request::OpenPopover {
                            session_id: Some(text(session_id)),
                            html: Some(text(html)),
                            size: Some(proto::Size { width: Some(width), height: Some(height) }),
                        },
                    ),
                ),
                identifier: Some(text(identifier)),
            },
        ),
    )
}

// --- Invoke function ---

pub fn invoke_function_app(invocation: &str) -> (msg: proto::ClientOriginatedMessage)
    ensures
        msg.id is None,
        msg.submessage matches Some(Submessage::InvokeFunctionRequest(r)) && r.context == Some(
            proto::invoke_function_request::Context::App(proto::invoke_function_request::App {}),
        ) && has_text(r.invocation, invocation@),
{
    wrap(
        Submessage::InvokeFunctionRequest(
            proto::InvokeFunctionRequest {
                context: Some(
                    proto::invoke_function_request::Context::App(
                        proto::invoke_function_request::App {},
                    ),
                ),
                invocation: Some(text(invocation)),
            },
        ),
    )
}

pub fn invoke_function_session(session_id: &str, invocation: &str) -> (msg:
    proto::ClientOriginatedMessage)
    ensures
        msg.id is None,
        msg.submessage matches Some(Submessage::InvokeFunctionRequest(r)) && r.context matches Some(
            proto::invoke_function_request::Context::Session(c),
        ) && has_text(c.session_id, session_id@) && has_text(r.invocation, invocation@),
{
    wrap(
        Submessage::InvokeFunctionRequest(
            proto::InvokeFunctionRequest {
                context: Some(
                    proto::invoke_function_request::Context::Session(
                        proto::invoke_function_request::Session {
                            session_id: Some(text(session_id)),
                        },
                    ),
                ),
                invocation: Some(text(invocation)),
            },
        ),
    )
}

pub fn invoke_function_tab(tab_id: &str, invocation: &str) -> (msg: proto::ClientOriginatedMessage)
    ensures
        msg.id is None,
        msg.submessage matches Some(Submessage::InvokeFunctionRequest(r)) && r.context matches Some(
            proto::invoke_function_request::Context::Tab(c),
        ) && has_text(c.tab_id, tab_id@) && has_text(r.invocation, invocation@),
{
    wrap(
        Submessage::InvokeFunctionRequest(
            proto::InvokeFunctionRequest {
                context: Some(
                    proto::invoke_function_request::Context::Tab(
                        proto::invoke_function_request::Tab { tab_id: Some(text(tab_id)) },
                    ),
                ),
                invocation: Some(text(invocation)),
            },
        ),
    )
}

pub fn invoke_function_window(window_id: &str, invocation: &str) -> (msg:
    proto::ClientOriginatedMessage)
    ensures
        msg.id is None,
        msg.submessage matches Some(Submessage::InvokeFunctionRequest(r)) && r.context matches Some(
            proto::invoke_function_request::Context::Window(c),
        ) && has_text(c.window_id, window_id@) && has_text(r.invocation, invocation@),
{
    wrap(
        Submessage::InvokeFunctionRequest(
            proto::InvokeFunctionRequest {
                context: Some(
                    proto::invoke_function_request::Context::Window(
                        proto::invoke_function_request::Window { window_id: Some(text(window_id)) },
                    ),
                ),
                invocation: Some(text(invocation)),
            },
        ),
    )
}

// --- Server-originated RPC result ---

pub fn rpc_result_value(request_id: &str, json_value: &str) -> (msg: proto::ClientOriginatedMessage)
    ensures
        msg.id is None,
        msg.submessage matches Some(Submessage::ServerOriginatedRpcResultRequest(r)) && r.result matches Some(
            proto::server_originated_rpc_result_request::RpcResult::JsonValue(v),
        ) && has_text(r.request_id, request_id@) && v@ == json_value@,
{
    wrap(
        Submessage::ServerOriginatedRpcResultRequest(
            proto::ServerOriginatedRpcResultRequest {
                request_id: Some(text(request_id)),
                result: Some(
                    proto::server_originated_rpc_result_request::RpcResult::JsonValue(
                        text(json_value),
                    ),
                ),
            },
        ),
    )
}

pub fn rpc_result_exception(request_id: &str, json_exception: &str) -> (msg:
    proto::ClientOriginatedMessage)
    ensures
        msg.id is None,
        msg.submessage matches Some(Submessage::ServerOriginatedRpcResultRequest(r)) && r.result matches Some(
            proto::server_originated_rpc_result_request::RpcResult::JsonException(v),
        ) && has_text(r.request_id, request_id@) && v@ == json_exception@,
{
    wrap(
        Submessage::ServerOriginatedRpcResultRequest(
            proto::ServerOriginatedRpcResultRequest {
                request_id: Some(text(request_id)),
                result: Some(
                    proto::server_originated_rpc_result_request::RpcResult::JsonException(
                        text(json_exception),
                    ),
                ),
            },
        ),
    )
}

} // verus!
