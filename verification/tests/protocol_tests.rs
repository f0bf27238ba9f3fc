use iterm2_client::auth::{
    resolve_credentials_with_env, AppleScriptRunner, Credentials, APPLESCRIPT_REQUEST,
    REDACTED_CREDENTIALS,
};
use iterm2_client::connection::{
    admit_request, route, server_reply, Route, MAX_PENDING_REQUESTS, TOO_MANY_PENDING,
};
use iterm2_client::notification::{next_step, Received, Step};
use iterm2_client::proto;
use iterm2_client::proto::server_originated_message::Submessage;
use iterm2_client::reply;
use iterm2_client::Error;
use std::sync::Mutex;

struct RecordingRunner {
    scripts: Mutex<Vec<String>>,
}

impl AppleScriptRunner for RecordingRunner {
    fn run_osascript(&self, script: &str) -> std::result::Result<String, String> {
        self.scripts.lock().unwrap().push(script.to_string());
        Ok("c k".to_string())
    }
}

#[test]
fn osascript_is_asked_for_the_cookie_and_key_once() {
    let runner = RecordingRunner { scripts: Mutex::new(vec![]) };
    let creds = resolve_credentials_with_env(&runner, |_| None).unwrap();
    assert_eq!(creds.cookie, "c");
    assert_eq!(creds.key, "k");
    let scripts = runner.scripts.lock().unwrap();
    assert_eq!(scripts.len(), 1);
    assert_eq!(scripts[0], APPLESCRIPT_REQUEST);
    assert_eq!(scripts[0], r#"tell application "iTerm2" to request cookie and key"#);
}

#[test]
fn environment_credentials_do_not_run_osascript() {
    let runner = RecordingRunner { scripts: Mutex::new(vec![]) };
    let creds = resolve_credentials_with_env(&runner, |name| Some(format!("{name}-value"))).unwrap();
    assert_eq!(creds.cookie, "ITERM2_COOKIE-value");
    assert_eq!(creds.key, "ITERM2_KEY-value");
    assert!(runner.scripts.lock().unwrap().is_empty());
}

#[test]
fn credentials_text_hides_both_values() {
    let creds = Credentials { cookie: "secret-cookie".to_string(), key: "secret-key".to_string() };
    let text = creds.redacted_text();
    assert_eq!(text, REDACTED_CREDENTIALS);
    assert_eq!(text, r#"Credentials { cookie: "[REDACTED]", key: "[REDACTED]" }"#);
    assert!(!text.contains("secret"));
}

#[test]
fn pending_requests_are_bounded() {
    assert_eq!(MAX_PENDING_REQUESTS, 4096);
    assert!(admit_request(0).is_ok());
    assert!(admit_request(4095).is_ok());
    match admit_request(4096) {
        Err(Error::Api(m)) => assert_eq!(m, TOO_MANY_PENDING),
        other => panic!("unexpected {other:?}"),
    }
    assert!(admit_request(usize::MAX).is_err());
}

fn numbered(sub: Submessage) -> proto::ServerOriginatedMessage {
    proto::ServerOriginatedMessage { id: Some(11), submessage: Some(sub) }
}

#[test]
fn every_reply_kind_reaches_its_caller() {
    let replies = vec![
        Submessage::ListPromptsResponse(proto::ListPromptsResponse {
            status: Some(0),
            unique_prompt_id: vec!["p1".to_string(), "p2".to_string()],
        }),
        Submessage::MenuItemResponse(proto::MenuItemResponse {
            status: Some(0),
            checked: Some(false),
            enabled: Some(true),
        }),
        Submessage::SelectionResponse(proto::SelectionResponse {
            status: Some(0),
            response: Some(proto::selection_response::Response::GetSelectionResponse(
                proto::selection_response::GetSelectionResponse {
                    selection: Some(proto::Selection { sub_selections: vec![] }),
                },
            )),
        }),
        Submessage::SetBroadcastDomainsResponse(proto::SetBroadcastDomainsResponse { status: Some(0) }),
        Submessage::TmuxResponse(proto::TmuxResponse {
            payload: Some(proto::tmux_response::Payload::ListConnections(
                proto::tmux_response::ListConnections { connections: vec![] },
            )),
            status: Some(0),
        }),
        Submessage::ReorderTabsResponse(proto::ReorderTabsResponse { status: Some(0) }),
        Submessage::PreferencesResponse(proto::PreferencesResponse {
            results: vec![proto::preferences_response::Result {
                result: Some(proto::preferences_response::result::Result::GetPreferenceResult(
                    proto::preferences_response::result::GetPreferenceResult {
                        json_value: Some(r#""value""#.to_string()),
                    },
                )),
            }],
        }),
        Submessage::RegisterToolResponse(proto::RegisterToolResponse { status: Some(0) }),
        Submessage::StatusBarComponentResponse(proto::StatusBarComponentResponse { status: Some(0) }),
        Submessage::InvokeFunctionResponse(proto::InvokeFunctionResponse {
            disposition: Some(proto::invoke_function_response::Disposition::Success(
                proto::invoke_function_response::Success { json_result: Some(r#""ok""#.to_string()) },
            )),
        }),
        Submessage::ServerOriginatedRpcResultResponse(proto::ServerOriginatedRpcResultResponse {}),
        Submessage::SetTabLayoutResponse(proto::SetTabLayoutResponse { status: Some(0) }),
    ];
    for sub in replies {
        let m = numbered(sub);
        assert_eq!(route(&m), Route::Reply(11));
        assert_eq!(server_reply(m.clone()).unwrap(), m);
    }
}

#[test]
fn a_preset_reply_carries_no_listing() {
    let preset = proto::color_preset_response::GetPreset {
        color_settings: vec![proto::color_preset_response::get_preset::ColorSetting {
            red_bits: Some(1.0f32.to_bits()),
            green_bits: Some(0.5f32.to_bits()),
            blue_bits: Some(0.0f32.to_bits()),
            alpha_bits: Some(1.0f32.to_bits()),
            color_space: Some("sRGB".to_string()),
            key: Some("Background Color".to_string()),
        }],
    };
    let r = numbered(Submessage::ColorPresetResponse(proto::ColorPresetResponse {
        response: Some(proto::color_preset_response::Response::GetPreset(preset)),
        status: Some(0),
    }));
    assert!(reply::color_presets_reply(r).unwrap().is_empty());
}

#[test]
fn the_first_status_that_is_not_ok_is_found() {
    assert_eq!(reply::find_failure(&vec![0, 0, 3, 1], 0), Some(3));
    assert_eq!(reply::find_failure(&vec![0, 0], 0), None);
    assert_eq!(reply::find_failure(&vec![], 0), None);
    assert_eq!(reply::find_failure(&vec![2, 2, 0], 2), Some(0));
}

#[test]
fn a_subscriber_steps_through_what_it_receives() {
    assert_eq!(next_step(Received::Item(Some(5u8))), Step::Yield(5));
    assert_eq!(next_step(Received::<u8>::Item(None)), Step::Retry);
    assert_eq!(next_step(Received::<u8>::Empty), Step::Pending);
    assert_eq!(next_step(Received::<u8>::Lagged), Step::Retry);
    assert_eq!(next_step(Received::<u8>::Closed), Step::End);
}
