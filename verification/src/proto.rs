//! Message types of the iTerm2 scripting protocol.
//!
//! Each type mirrors one protobuf message of the iTerm2 API: optional scalar
//! fields are `Option`s, repeated fields are `Vec`s, enum-typed fields carry the
//! enum's wire number as an `i32`, and every `oneof` is an enum in the module
//! named after its message.
use vstd::prelude::*;

pub mod activate_request;
pub mod client_originated_message;
pub mod close_request;
pub mod close_response;
pub mod color_preset_request;
pub mod color_preset_response;
pub mod focus_changed_notification;
pub mod get_property_request;
pub mod inject_response;
pub mod invoke_function_request;
pub mod invoke_function_response;
pub mod list_profiles_response;
pub mod list_sessions_response;
pub mod notification_request;
pub mod preferences_request;
pub mod preferences_response;
pub mod register_tool_request;
pub mod reorder_tabs_request;
pub mod saved_arrangement_request;
pub mod selection_request;
pub mod selection_response;
pub mod server_originated_message;
pub mod server_originated_rpc_result_request;
pub mod set_profile_property_request;
pub mod set_property_request;
pub mod split_pane_request;
pub mod split_tree_node;
pub mod status_bar_component_request;
pub mod tmux_request;
pub mod tmux_response;
pub mod variable_request;

verus! {

// ---------------------------------------------------------------------------
// Envelopes
// ---------------------------------------------------------------------------

/// A message sent by the client. `id` is assigned by the connection when the
/// message is sent; request builders leave it empty.
#[derive(Clone, Debug, PartialEq, Default)]
pub struct ClientOriginatedMessage {
    pub id: Option<i64>,
    pub submessage: Option<client_originated_message::Submessage>,
}

/// A message sent by iTerm2: the reply to a request (same `id`) or an
/// unsolicited notification.
#[derive(Clone, Debug, PartialEq, Default)]
pub struct ServerOriginatedMessage {
    pub id: Option<i64>,
    pub submessage: Option<server_originated_message::Submessage>,
}

// ---------------------------------------------------------------------------
// Geometry and ranges
// ---------------------------------------------------------------------------

#[derive(Clone, Copy, Debug, PartialEq, Default)]
pub struct Point {
    pub x: Option<i32>,
    pub y: Option<i32>,
}

#[derive(Clone, Copy, Debug, PartialEq, Default)]
pub struct Size {
    pub width: Option<i32>,
    pub height: Option<i32>,
}

#[derive(Clone, Copy, Debug, PartialEq, Default)]
pub struct Frame {
    pub origin: Option<Point>,
    pub size: Option<Size>,
}

#[derive(Clone, Copy, Debug, PartialEq, Default)]
pub struct Coord {
    pub x: Option<i32>,
    pub y: Option<i64>,
}

#[derive(Clone, Copy, Debug, PartialEq, Default)]
pub struct CoordRange {
    pub start: Option<Coord>,
    pub end: Option<Coord>,
}

#[derive(Clone, Copy, Debug, PartialEq, Default)]
pub struct Range {
    pub location: Option<i64>,
    pub length: Option<i64>,
}

#[derive(Clone, Copy, Debug, PartialEq, Default)]
pub struct WindowedCoordRange {
    pub coord_range: Option<CoordRange>,
    pub columns: Option<Range>,
}

/// Which lines of a session's buffer to read.
#[derive(Clone, Copy, Debug, PartialEq, Default)]
pub struct LineRange {
    pub screen_contents_only: Option<bool>,
    pub trailing_lines: Option<i32>,
    pub windowed_coord_range: Option<WindowedCoordRange>,
}

// ---------------------------------------------------------------------------
// Shared payloads
// ---------------------------------------------------------------------------

#[derive(Clone, Debug, PartialEq, Default)]
pub struct ProfileProperty {
    pub key: Option<String>,
    pub json_value: Option<String>,
}

/// Summary of one session as it appears in a session listing or a layout.
#[derive(Debug, PartialEq, Default)]
pub struct SessionSummary {
    pub unique_identifier: Option<String>,
    pub frame: Option<Frame>,
    pub grid_size: Option<Size>,
    pub title: Option<String>,
}

fn copy_opt_string(o: &Option<String>) -> (r: Option<String>)
    ensures
        r == *o,
{
    match o {
        Some(s) => Some(s.clone()),
        None => None,
    }
}

impl Clone for SessionSummary {
    fn clone(&self) -> (r: Self)
        ensures
            r == *self,
    {
        SessionSummary {
            unique_identifier: copy_opt_string(&self.unique_identifier),
            frame: self.frame,
            grid_size: self.grid_size,
            title: copy_opt_string(&self.title),
        }
    }
}

/// A node of a tab's split-pane tree: its children are sessions or further
/// nodes, laid out vertically or horizontally.
#[derive(Debug, PartialEq, Default)]
pub struct SplitTreeNode {
    pub vertical: Option<bool>,
    pub links: Vec<split_tree_node::SplitTreeLink>,
}

/// `a` and `b` are the same split-pane tree: same layout flags, same
/// sessions, same shape.
pub open spec fn same_tree(a: SplitTreeNode, b: SplitTreeNode) -> bool
    decreases a,
{
    proof {
        assert(decreases_to!(a => a.links@));
    }
    a.vertical == b.vertical && same_links(a.links@, b.links@)
}

/// Two sequences of split-tree links hold the same children, in order.
pub open spec fn same_links(
    a: Seq<split_tree_node::SplitTreeLink>,
    b: Seq<split_tree_node::SplitTreeLink>,
) -> bool
    decreases a,
{
    if a.len() == 0 {
        b.len() == 0
    } else if b.len() == 0 {
        false
    } else {
        same_links(a.drop_last(), b.drop_last()) && match (a.last().child, b.last().child) {
            (None, None) => true,
            (
                Some(split_tree_node::split_tree_link::Child::Session(x)),
                Some(split_tree_node::split_tree_link::Child::Session(y)),
            ) => x == y,
            (
                Some(split_tree_node::split_tree_link::Child::Node(x)),
                Some(split_tree_node::split_tree_link::Child::Node(y)),
            ) => {
                proof {
                    assert(decreases_to!(a => a[a.len() - 1]));
                }
                same_tree(x, y)
            },
            _ => false,
        }
    }
}

impl SplitTreeNode {
    /// A copy of the whole tree below this node.
    pub fn copy_tree(&self) -> (copy: SplitTreeNode)
        ensures
            same_tree(copy, *self),
        decreases self,
    {
        let mut links: Vec<split_tree_node::SplitTreeLink> = Vec::new();
        let mut i: usize = 0;
        while i < self.links.len()
            invariant
                i <= self.links.len(),
                same_links(links@, self.links@.take(i as int)),
            decreases self.links.len() - i,
        {
            let link = &self.links[i];
            let child = match &link.child {
                None => None,
                Some(split_tree_node::split_tree_link::Child::Session(s)) => {
                    Some(split_tree_node::split_tree_link::Child::Session(s.clone()))
                },
                Some(split_tree_node::split_tree_link::Child::Node(n)) => {
                    assert(decreases_to!(self => self.links@[i as int]));
                    Some(split_tree_node::split_tree_link::Child::Node(n.copy_tree()))
                },
            };
            let ghost before = links@;
            links.push(split_tree_node::SplitTreeLink { child });
            proof {
                let t = self.links@.take(i + 1);
                assert(t.drop_last() =~= self.links@.take(i as int));
                assert(t.last() == self.links@[i as int]);
                assert(links@.drop_last() =~= before);
            }
            i = i + 1;
        }
        proof {
            assert(self.links@.take(self.links@.len() as int) =~= self.links@);
        }
        SplitTreeNode { vertical: self.vertical, links }
    }
}

impl Clone for SplitTreeNode {
    fn clone(&self) -> (copy: Self)
        ensures
            same_tree(copy, *self),
    {
        self.copy_tree()
    }
}

#[derive(Clone, Debug, PartialEq, Default)]
pub struct BroadcastDomain {
    pub session_ids: Vec<String>,
}

#[derive(Clone, Debug, PartialEq, Default)]
pub struct SubSelection {
    pub windowed_coord_range: Option<WindowedCoordRange>,
    pub selection_mode: Option<i32>,
    pub connected: Option<bool>,
}

#[derive(Clone, Debug, PartialEq, Default)]
pub struct Selection {
    pub sub_selections: Vec<SubSelection>,
}

/// The kinds of event a client can subscribe to.
#[derive(Clone, Copy, Debug, PartialEq, Eq)]
pub enum NotificationType {
    NotifyOnKeystroke,
    NotifyOnScreenUpdate,
    NotifyOnPrompt,
    NotifyOnLocationChange,
    NotifyOnCustomEscapeSequence,
    NotifyOnVariableChange,
    KeystrokeFilter,
    NotifyOnNewSession,
    NotifyOnTerminateSession,
    NotifyOnLayoutChange,
    NotifyOnFocusChange,
    NotifyOnServerOriginatedRpc,
    NotifyOnBroadcastChange,
    NotifyOnProfileChange,
}

impl NotificationType {
    /// The enum's number on the wire.
    pub open spec fn spec_code(self) -> i32 {
        match self {
            NotificationType::NotifyOnKeystroke => 1,
            NotificationType::NotifyOnScreenUpdate => 2,
            NotificationType::NotifyOnPrompt => 3,
            NotificationType::NotifyOnLocationChange => 4,
            NotificationType::NotifyOnCustomEscapeSequence => 5,
            NotificationType::NotifyOnVariableChange => 6,
            NotificationType::KeystrokeFilter => 7,
            NotificationType::NotifyOnNewSession => 8,
            NotificationType::NotifyOnTerminateSession => 9,
            NotificationType::NotifyOnLayoutChange => 10,
            NotificationType::NotifyOnFocusChange => 11,
            NotificationType::NotifyOnServerOriginatedRpc => 12,
            NotificationType::NotifyOnBroadcastChange => 13,
            NotificationType::NotifyOnProfileChange => 14,
        }
    }

    #[verifier::when_used_as_spec(spec_code)]
    pub fn code(self) -> (c: i32)
        ensures
            c == self.spec_code(),
    {
        match self {
            NotificationType::NotifyOnKeystroke => 1,
            NotificationType::NotifyOnScreenUpdate => 2,
            NotificationType::NotifyOnPrompt => 3,
            NotificationType::NotifyOnLocationChange => 4,
            NotificationType::NotifyOnCustomEscapeSequence => 5,
            NotificationType::NotifyOnVariableChange => 6,
            NotificationType::KeystrokeFilter => 7,
            NotificationType::NotifyOnNewSession => 8,
            NotificationType::NotifyOnTerminateSession => 9,
            NotificationType::NotifyOnLayoutChange => 10,
            NotificationType::NotifyOnFocusChange => 11,
            NotificationType::NotifyOnServerOriginatedRpc => 12,
            NotificationType::NotifyOnBroadcastChange => 13,
            NotificationType::NotifyOnProfileChange => 14,
        }
    }
}

/// Scope of a variable in a variable-change notification.
#[derive(Clone, Copy, Debug, PartialEq, Eq)]
pub enum VariableScope {
    Session,
    Tab,
    Window,
    App,
}

impl VariableScope {
    pub open spec fn spec_code(self) -> i32 {
        match self {
            VariableScope::Session => 1,
            VariableScope::Tab => 2,
            VariableScope::Window => 3,
            VariableScope::App => 4,
        }
    }

    #[verifier::when_used_as_spec(spec_code)]
    pub fn code(self) -> (c: i32)
        ensures
            c == self.spec_code(),
    {
        match self {
            VariableScope::Session => 1,
            VariableScope::Tab => 2,
            VariableScope::Window => 3,
            VariableScope::App => 4,
        }
    }
}

// ---------------------------------------------------------------------------
// Requests
// ---------------------------------------------------------------------------

#[derive(Clone, Debug, PartialEq, Default)]
pub struct ListSessionsRequest {}

#[derive(Clone, Debug, PartialEq, Default)]
pub struct SendTextRequest {
    pub session: Option<String>,
    pub text: Option<String>,
    pub suppress_broadcast: Option<bool>,
}

#[derive(Clone, Debug, PartialEq, Default)]
pub struct GetBufferRequest {
    pub session: Option<String>,
    pub line_range: Option<LineRange>,
    pub include_styles: Option<bool>,
}

#[derive(Clone, Debug, PartialEq, Default)]
pub struct GetPromptRequest {
    pub session: Option<String>,
    pub unique_prompt_id: Option<String>,
}

#[derive(Clone, Debug, PartialEq, Default)]
pub struct ListPromptsRequest {
    pub session: Option<String>,
    pub first_unique_id: Option<String>,
    pub last_unique_id: Option<String>,
}

#[derive(Clone, Debug, PartialEq, Default)]
pub struct CreateTabRequest {
    pub profile_name: Option<String>,
    pub window_id: Option<String>,
    pub tab_index: Option<u32>,
    pub command: Option<String>,
    pub custom_profile_properties: Vec<ProfileProperty>,
}

#[derive(Clone, Debug, PartialEq, Default)]
pub struct SplitPaneRequest {
    pub session: Option<String>,
    pub split_direction: Option<i32>,
    pub before: Option<bool>,
    pub profile_name: Option<String>,
    pub custom_profile_properties: Vec<ProfileProperty>,
}

#[derive(Clone, Debug, PartialEq, Default)]
pub struct GetProfilePropertyRequest {
    pub session: Option<String>,
    pub keys: Vec<String>,
}

#[derive(Clone, Debug, PartialEq, Default)]
pub struct SetProfilePropertyRequest {
    pub target: Option<set_profile_property_request::Target>,
    pub key: Option<String>,
    pub json_value: Option<String>,
    pub assignments: Vec<set_profile_property_request::Assignment>,
}

#[derive(Clone, Debug, PartialEq, Default)]
pub struct ListProfilesRequest {
    pub properties: Vec<String>,
    pub guids: Vec<String>,
}

#[derive(Clone, Debug, PartialEq, Default)]
pub struct GetPropertyRequest {
    pub identifier: Option<get_property_request::Identifier>,
    pub name: Option<String>,
}

#[derive(Clone, Debug, PartialEq, Default)]
pub struct SetPropertyRequest {
    pub identifier: Option<set_property_request::Identifier>,
    pub name: Option<String>,
    pub json_value: Option<String>,
}

#[derive(Clone, Debug, PartialEq, Default)]
pub struct VariableRequest {
    pub scope: Option<variable_request::Scope>,
    pub set: Vec<variable_request::SetVariable>,
    pub get: Vec<String>,
}

#[derive(Clone, Debug, PartialEq, Default)]
pub struct ActivateRequest {
    pub identifier: Option<activate_request::Identifier>,
    pub order_window_front: Option<bool>,
    pub select_tab: Option<bool>,
    pub select_session: Option<bool>,
    pub activate_app: Option<activate_request::App>,
}

#[derive(Clone, Debug, PartialEq, Default)]
pub struct TransactionRequest {
    pub begin: Option<bool>,
}

#[derive(Clone, Debug, PartialEq, Default)]
pub struct NotificationRequest {
    pub session: Option<String>,
    pub subscribe: Option<bool>,
    pub notification_type: Option<i32>,
    pub arguments: Option<notification_request::Arguments>,
}

#[derive(Clone, Debug, PartialEq, Default)]
pub struct InjectRequest {
    pub session_id: Vec<String>,
    pub data: Option<Vec<u8>>,
}

#[derive(Clone, Debug, PartialEq, Default)]
pub struct CloseRequest {
    pub target: Option<close_request::Target>,
    pub force: Option<bool>,
}

#[derive(Clone, Debug, PartialEq, Default)]
pub struct FocusRequest {}

#[derive(Clone, Debug, PartialEq, Default)]
pub struct SavedArrangementRequest {
    pub name: Option<String>,
    pub action: Option<i32>,
    pub window_id: Option<String>,
}

#[derive(Clone, Debug, PartialEq, Default)]
pub struct MenuItemRequest {
    pub identifier: Option<String>,
    pub query_only: Option<bool>,
}

#[derive(Clone, Debug, PartialEq, Default)]
pub struct RestartSessionRequest {
    pub session_id: Option<String>,
    pub only_if_exited: Option<bool>,
}

#[derive(Clone, Debug, PartialEq, Default)]
pub struct RegisterToolRequest {
    pub name: Option<String>,
    pub identifier: Option<String>,
    pub tool_type: Option<i32>,
    pub reveal_if_already_registered: Option<bool>,
    pub url: Option<String>,
}

#[derive(Clone, Debug, PartialEq, Default)]
pub struct SetTabLayoutRequest {
    pub tab_id: Option<String>,
    pub root: Option<SplitTreeNode>,
}

#[derive(Clone, Debug, PartialEq, Default)]
pub struct GetBroadcastDomainsRequest {}

#[derive(Clone, Debug, PartialEq, Default)]
pub struct SetBroadcastDomainsRequest {
    pub broadcast_domains: Vec<BroadcastDomain>,
}

#[derive(Clone, Debug, PartialEq, Default)]
pub struct TmuxRequest {
    pub payload: Option<tmux_request::Payload>,
}

#[derive(Clone, Debug, PartialEq, Default)]
pub struct ReorderTabsRequest {
    pub assignments: Vec<reorder_tabs_request::Assignment>,
}

#[derive(Clone, Debug, PartialEq, Default)]
pub struct PreferencesRequest {
    pub requests: Vec<preferences_request::Request>,
}

#[derive(Clone, Debug, PartialEq, Default)]
pub struct ColorPresetRequest {
    pub request: Option<color_preset_request::Request>,
}

#[derive(Clone, Debug, PartialEq, Default)]
pub struct SelectionRequest {
    pub request: Option<selection_request::Request>,
}

#[derive(Clone, Debug, PartialEq, Default)]
pub struct StatusBarComponentRequest {
    pub request: Option<status_bar_component_request::Request>,
    pub identifier: Option<String>,
}

/// Invokes a registered function. The protocol's optional floating-point
/// timeout is not carried: requests built here never set it.
#[derive(Clone, Debug, PartialEq, Default)]
pub struct InvokeFunctionRequest {
    pub context: Option<invoke_function_request::Context>,
    pub invocation: Option<String>,
}

#[derive(Clone, Debug, PartialEq, Default)]
pub struct ServerOriginatedRpcResultRequest {
    pub request_id: Option<String>,
    pub result: Option<server_originated_rpc_result_request::RpcResult>,
}

// ---------------------------------------------------------------------------
// Responses
// ---------------------------------------------------------------------------

#[derive(Clone, Debug, PartialEq, Default)]
pub struct ListSessionsResponse {
    pub windows: Vec<list_sessions_response::Window>,
    pub buried_sessions: Vec<SessionSummary>,
}

#[derive(Clone, Debug, PartialEq, Default)]
pub struct SendTextResponse {
    pub status: Option<i32>,
}

#[derive(Clone, Debug, PartialEq, Default)]
pub struct CodePointsPerCell {
    pub num_code_points: Option<i32>,
    pub repeats: Option<i32>,
}

/// One line of a session's buffer. Per-cell styles are not carried.
#[derive(Clone, Debug, PartialEq, Default)]
pub struct LineContents {
    pub text: Option<String>,
    pub code_points_per_cell: Vec<CodePointsPerCell>,
    pub continuation: Option<i32>,
}

#[derive(Clone, Debug, PartialEq, Default)]
pub struct GetBufferResponse {
    pub status: Option<i32>,
    pub range: Option<Range>,
    pub contents: Vec<LineContents>,
    pub cursor: Option<Coord>,
    pub num_lines_above_screen: Option<i64>,
    pub windowed_coord_range: Option<WindowedCoordRange>,
}

#[derive(Clone, Debug, PartialEq, Default)]
pub struct CreateTabResponse {
    pub status: Option<i32>,
    pub window_id: Option<String>,
    pub tab_id: Option<i32>,
    pub session_id: Option<String>,
}

#[derive(Clone, Debug, PartialEq, Default)]
pub struct SplitPaneResponse {
    pub status: Option<i32>,
    pub session_id: Vec<String>,
}

#[derive(Clone, Debug, PartialEq, Default)]
pub struct ActivateResponse {
    pub status: Option<i32>,
}

#[derive(Clone, Debug, PartialEq, Default)]
pub struct TransactionResponse {
    pub status: Option<i32>,
}

#[derive(Clone, Debug, PartialEq, Default)]
pub struct VariableResponse {
    pub status: Option<i32>,
    pub values: Vec<String>,
}

#[derive(Clone, Debug, PartialEq, Default)]
pub struct CloseResponse {
    pub statuses: Vec<i32>,
}

#[derive(Clone, Debug, PartialEq, Default)]
pub struct GetProfilePropertyResponse {
    pub status: Option<i32>,
    pub properties: Vec<ProfileProperty>,
}

#[derive(Clone, Debug, PartialEq, Default)]
pub struct SetProfilePropertyResponse {
    pub status: Option<i32>,
}

#[derive(Clone, Debug, PartialEq, Default)]
pub struct FocusResponse {
    pub notifications: Vec<FocusChangedNotification>,
}

#[derive(Clone, Debug, PartialEq, Default)]
pub struct GetPropertyResponse {
    pub status: Option<i32>,
    pub json_value: Option<String>,
}

#[derive(Clone, Debug, PartialEq, Default)]
pub struct SetPropertyResponse {
    pub status: Option<i32>,
}

#[derive(Clone, Debug, PartialEq, Default)]
pub struct InjectResponse {
    pub status: Vec<i32>,
}

#[derive(Clone, Debug, PartialEq, Default)]
pub struct RestartSessionResponse {
    pub status: Option<i32>,
}

#[derive(Clone, Debug, PartialEq, Default)]
pub struct GetPromptResponse {
    pub status: Option<i32>,
    pub prompt_range: Option<CoordRange>,
    pub command_range: Option<CoordRange>,
    pub output_range: Option<CoordRange>,
    pub working_directory: Option<String>,
    pub command: Option<String>,
    pub prompt_state: Option<i32>,
    pub exit_status: Option<u32>,
    pub unique_prompt_id: Option<String>,
}

#[derive(Clone, Debug, PartialEq, Default)]
pub struct ListProfilesResponse {
    pub profiles: Vec<list_profiles_response::Profile>,
}

#[derive(Clone, Debug, PartialEq, Default)]
pub struct ColorPresetResponse {
    pub response: Option<color_preset_response::Response>,
    pub status: Option<i32>,
}

#[derive(Clone, Debug, PartialEq, Default)]
pub struct SavedArrangementResponse {
    pub status: Option<i32>,
    pub names: Vec<String>,
}

#[derive(Clone, Debug, PartialEq, Default)]
pub struct GetBroadcastDomainsResponse {
    pub broadcast_domains: Vec<BroadcastDomain>,
}

#[derive(Clone, Debug, PartialEq, Default)]
pub struct NotificationResponse {
    pub status: Option<i32>,
}

#[derive(Clone, Debug, PartialEq, Default)]
pub struct ListPromptsResponse {
    pub status: Option<i32>,
    pub unique_prompt_id: Vec<String>,
}

#[derive(Clone, Debug, PartialEq, Default)]
pub struct MenuItemResponse {
    pub status: Option<i32>,
    pub checked: Option<bool>,
    pub enabled: Option<bool>,
}

#[derive(Clone, Debug, PartialEq, Default)]
pub struct SelectionResponse {
    pub status: Option<i32>,
    pub response: Option<selection_response::Response>,
}

#[derive(Clone, Debug, PartialEq, Default)]
pub struct SetBroadcastDomainsResponse {
    pub status: Option<i32>,
}

#[derive(Clone, Debug, PartialEq, Default)]
pub struct TmuxResponse {
    pub payload: Option<tmux_response::Payload>,
    pub status: Option<i32>,
}

#[derive(Clone, Debug, PartialEq, Default)]
pub struct ReorderTabsResponse {
    pub status: Option<i32>,
}

#[derive(Clone, Debug, PartialEq, Default)]
pub struct PreferencesResponse {
    pub results: Vec<preferences_response::Result>,
}

#[derive(Clone, Debug, PartialEq, Default)]
pub struct RegisterToolResponse {
    pub status: Option<i32>,
}

#[derive(Clone, Debug, PartialEq, Default)]
pub struct StatusBarComponentResponse {
    pub status: Option<i32>,
}

#[derive(Clone, Debug, PartialEq, Default)]
pub struct InvokeFunctionResponse {
    pub disposition: Option<invoke_function_response::Disposition>,
}

#[derive(Clone, Debug, PartialEq, Default)]
pub struct ServerOriginatedRpcResultResponse {}

#[derive(Clone, Debug, PartialEq, Default)]
pub struct SetTabLayoutResponse {
    pub status: Option<i32>,
}

// ---------------------------------------------------------------------------
// Notifications
// ---------------------------------------------------------------------------

#[derive(Clone, Debug, PartialEq, Default)]
pub struct KeystrokeNotification {
    pub characters: Option<String>,
    pub characters_ignoring_modifiers: Option<String>,
    pub modifiers: Vec<i32>,
    pub key_code: Option<i32>,
    pub session: Option<String>,
    pub action: Option<i32>,
}

#[derive(Clone, Debug, PartialEq, Default)]
pub struct ScreenUpdateNotification {
    pub session: Option<String>,
}

#[derive(Clone, Debug, PartialEq, Default)]
pub struct PromptNotification {
    pub session: Option<String>,
    pub event: Option<i32>,
    pub unique_prompt_id: Option<String>,
}

#[derive(Clone, Debug, PartialEq, Default)]
pub struct LocationChangeNotification {
    pub host_name: Option<String>,
    pub user_name: Option<String>,
    pub directory: Option<String>,
    pub session: Option<String>,
}

#[derive(Clone, Debug, PartialEq, Default)]
pub struct CustomEscapeSequenceNotification {
    pub session: Option<String>,
    pub sender_identity: Option<String>,
    pub payload: Option<String>,
}

#[derive(Clone, Debug, PartialEq, Default)]
pub struct NewSessionNotification {
    pub session_id: Option<String>,
}

#[derive(Clone, Debug, PartialEq, Default)]
pub struct TerminateSessionNotification {
    pub session_id: Option<String>,
}

#[derive(Clone, Debug, PartialEq, Default)]
pub struct LayoutChangedNotification {
    pub list_sessions_response: Option<ListSessionsResponse>,
}

#[derive(Clone, Debug, PartialEq, Default)]
pub struct FocusChangedNotification {
    pub event: Option<focus_changed_notification::Event>,
}

#[derive(Clone, Debug, PartialEq, Default)]
pub struct VariableChangedNotification {
    pub scope: Option<i32>,
    pub identifier: Option<String>,
    pub name: Option<String>,
    pub json_new_value: Option<String>,
}

/// An unsolicited event; at most one of its fields is set.
#[derive(Clone, Debug, PartialEq, Default)]
pub struct Notification {
    pub keystroke_notification: Option<KeystrokeNotification>,
    pub screen_update_notification: Option<ScreenUpdateNotification>,
    pub prompt_notification: Option<PromptNotification>,
    pub location_change_notification: Option<LocationChangeNotification>,
    pub custom_escape_sequence_notification: Option<CustomEscapeSequenceNotification>,
    pub new_session_notification: Option<NewSessionNotification>,
    pub terminate_session_notification: Option<TerminateSessionNotification>,
    pub layout_changed_notification: Option<LayoutChangedNotification>,
    pub focus_changed_notification: Option<FocusChangedNotification>,
    pub variable_changed_notification: Option<VariableChangedNotification>,
}

} // verus!
