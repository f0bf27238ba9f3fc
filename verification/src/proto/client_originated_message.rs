use vstd::prelude::*;
use crate::proto::{
    ActivateRequest, CloseRequest, ColorPresetRequest, CreateTabRequest, FocusRequest,
    GetBroadcastDomainsRequest, GetBufferRequest, GetProfilePropertyRequest, GetPromptRequest,
    GetPropertyRequest, InjectRequest, InvokeFunctionRequest, ListProfilesRequest,
    ListPromptsRequest, ListSessionsRequest, MenuItemRequest, NotificationRequest,
    PreferencesRequest, RegisterToolRequest, ReorderTabsRequest, RestartSessionRequest,
    SavedArrangementRequest, SelectionRequest, SendTextRequest, ServerOriginatedRpcResultRequest,
    SetBroadcastDomainsRequest, SetProfilePropertyRequest, SetPropertyRequest,
    SetTabLayoutRequest, SplitPaneRequest, StatusBarComponentRequest, TmuxRequest,
    TransactionRequest, VariableRequest,
};

verus! {

/// The request a client message carries.
#[derive(Clone, Debug, PartialEq)]
pub enum Submessage {
    GetBufferRequest(GetBufferRequest),
    GetPromptRequest(GetPromptRequest),
    TransactionRequest(TransactionRequest),
    NotificationRequest(NotificationRequest),
    RegisterToolRequest(RegisterToolRequest),
    SetProfilePropertyRequest(SetProfilePropertyRequest),
    ListSessionsRequest(ListSessionsRequest),
    SendTextRequest(SendTextRequest),
    CreateTabRequest(CreateTabRequest),
    SplitPaneRequest(SplitPaneRequest),
    GetProfilePropertyRequest(GetProfilePropertyRequest),
    SetPropertyRequest(SetPropertyRequest),
    GetPropertyRequest(GetPropertyRequest),
    InjectRequest(InjectRequest),
    ActivateRequest(ActivateRequest),
    VariableRequest(VariableRequest),
    SavedArrangementRequest(SavedArrangementRequest),
    FocusRequest(FocusRequest),
    ListProfilesRequest(ListProfilesRequest),
    ServerOriginatedRpcResultRequest(ServerOriginatedRpcResultRequest),
    RestartSessionRequest(RestartSessionRequest),
    MenuItemRequest(MenuItemRequest),
    SetTabLayoutRequest(SetTabLayoutRequest),
    GetBroadcastDomainsRequest(GetBroadcastDomainsRequest),
    TmuxRequest(TmuxRequest),
    ReorderTabsRequest(ReorderTabsRequest),
    PreferencesRequest(PreferencesRequest),
    ColorPresetRequest(ColorPresetRequest),
    SelectionRequest(SelectionRequest),
    StatusBarComponentRequest(StatusBarComponentRequest),
    SetBroadcastDomainsRequest(SetBroadcastDomainsRequest),
    CloseRequest(CloseRequest),
    InvokeFunctionRequest(InvokeFunctionRequest),
    ListPromptsRequest(ListPromptsRequest),
}

} // verus!
