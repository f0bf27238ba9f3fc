use vstd::prelude::*;
use crate::proto::{
    ActivateResponse, CloseResponse, ColorPresetResponse, CreateTabResponse, FocusResponse,
    GetBroadcastDomainsResponse, GetBufferResponse, GetProfilePropertyResponse, GetPromptResponse,
    GetPropertyResponse, InjectResponse, ListProfilesResponse, ListSessionsResponse, Notification,
    NotificationResponse, RestartSessionResponse, SavedArrangementResponse, SendTextResponse,
    SetProfilePropertyResponse, SetPropertyResponse, SplitPaneResponse, TransactionResponse,
    VariableResponse, ListPromptsResponse, MenuItemResponse, SelectionResponse,
    SetBroadcastDomainsResponse, TmuxResponse, ReorderTabsResponse, PreferencesResponse,
    RegisterToolResponse, StatusBarComponentResponse, InvokeFunctionResponse,
    ServerOriginatedRpcResultResponse, SetTabLayoutResponse,
};

verus! {

/// What a server message carries: an error text, the reply to one of the
/// requests, or a notification.
#[derive(Clone, Debug, PartialEq)]
pub enum Submessage {
    Error(String),
    GetBufferResponse(GetBufferResponse),
    GetPromptResponse(GetPromptResponse),
    TransactionResponse(TransactionResponse),
    NotificationResponse(NotificationResponse),
    ListSessionsResponse(ListSessionsResponse),
    SendTextResponse(SendTextResponse),
    CreateTabResponse(CreateTabResponse),
    SplitPaneResponse(SplitPaneResponse),
    GetProfilePropertyResponse(GetProfilePropertyResponse),
    SetProfilePropertyResponse(SetProfilePropertyResponse),
    SetPropertyResponse(SetPropertyResponse),
    GetPropertyResponse(GetPropertyResponse),
    InjectResponse(InjectResponse),
    ActivateResponse(ActivateResponse),
    VariableResponse(VariableResponse),
    SavedArrangementResponse(SavedArrangementResponse),
    FocusResponse(FocusResponse),
    ListProfilesResponse(ListProfilesResponse),
    RestartSessionResponse(RestartSessionResponse),
    GetBroadcastDomainsResponse(GetBroadcastDomainsResponse),
    ColorPresetResponse(ColorPresetResponse),
    CloseResponse(CloseResponse),
    ListPromptsResponse(ListPromptsResponse),
    MenuItemResponse(MenuItemResponse),
    SelectionResponse(SelectionResponse),
    SetBroadcastDomainsResponse(SetBroadcastDomainsResponse),
    TmuxResponse(TmuxResponse),
    ReorderTabsResponse(ReorderTabsResponse),
    PreferencesResponse(PreferencesResponse),
    RegisterToolResponse(RegisterToolResponse),
    StatusBarComponentResponse(StatusBarComponentResponse),
    InvokeFunctionResponse(InvokeFunctionResponse),
    ServerOriginatedRpcResultResponse(ServerOriginatedRpcResultResponse),
    SetTabLayoutResponse(SetTabLayoutResponse),
    Notification(Notification),
}

} // verus!
