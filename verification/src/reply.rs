//! Reading iTerm2's replies: the reply must be of the kind the request asks
//! for, and its status, where it has one, must be OK.
use vstd::prelude::*;
use crate::error::{Error, ErrorView, Result};
use crate::proto;
use crate::proto::server_originated_message::Submessage;
use crate::text::{i32_text, signed_decimal, text_or_empty};
use crate::window::CreateTabResult;

verus! {

// ---------------------------------------------------------------------------
// Status codes
// ---------------------------------------------------------------------------

/// The error a reply status raises for operation `op`: none when the status
/// is absent or 0.
pub open spec fn status_error(status: Option<i32>, op: Seq<char>) -> Option<ErrorView> {
    match status {
        Some(code) => if code == 0 {
            None
        } else {
            Some(ErrorView::Status(op + " returned status "@ + signed_decimal(code as int)))
        },
        None => None,
    }
}

/// `r` is what a check of `status` for operation `op` gives back.
pub open spec fn status_checked(r: Result<()>, status: Option<i32>, op: Seq<char>) -> bool {
    match status_error(status, op) {
        None => r is Ok,
        Some(ev) => r matches Err(e) && e@ == ev,
    }
}

/// A status check succeeds exactly on an absent status or status 0; any
/// other code fails with the status error naming the operation and the code.
pub proof fn law_status_check_fails_iff_nonzero(r: Result<()>, status: Option<i32>, op: Seq<char>)
    requires
        status_checked(r, status, op),
    ensures
        r is Ok <==> (status is None || status == Some(0i32)),
        forall|c: i32|
            status == Some(c) && c != 0 ==> (r matches Err(e) && e@ == ErrorView::Status(
                op + " returned status "@ + signed_decimal(c as int),
            )),
{
}

/// `r` is the error for a reply of another kind than `expected`.
pub open spec fn unexpected(r: Result<()>, expected: Seq<char>) -> bool {
    r matches Err(e) && e@ == ErrorView::UnexpectedResponse(expected)
}

/// Accepts an absent or zero status; any other code is an error naming `op`
/// and the code.
pub fn check_status_i32(status: Option<i32>, op: &str) -> (r: Result<()>)
    ensures
        status_checked(r, status, op@),
{
    match status {
        Some(code) => {
            if code == 0 {
                Ok(())
            } else {
                let message = op.to_string().concat(" returned status ").concat(
                    i32_text(code).as_str(),
                );
                Err(Error::Status(message))
            }
        },
        None => Ok(()),
    }
}

pub fn check_buffer_status(status: Option<i32>) -> (r: Result<()>)
    ensures
        status_checked(r, status, "GetBuffer"@),
{
    check_status_i32(status, "GetBuffer")
}

pub fn check_split_status(status: Option<i32>) -> (r: Result<()>)
    ensures
        status_checked(r, status, "SplitPane"@),
{
    check_status_i32(status, "SplitPane")
}

pub fn check_variable_status(status: Option<i32>) -> (r: Result<()>)
    ensures
        status_checked(r, status, "Variable"@),
{
    check_status_i32(status, "Variable")
}

// ---------------------------------------------------------------------------
// Outcome shapes
// ---------------------------------------------------------------------------

/// The outcome of a reply that carries only a status: `status_checked`
/// when the reply is of the expected kind, the unexpected-reply error
/// otherwise.
pub open spec fn unit_reply(
    r: Result<()>,
    status: Option<Option<i32>>,
    op: Seq<char>,
    expected: Seq<char>,
) -> bool {
    match status {
        Some(s) => status_checked(r, s, op),
        None => unexpected(r, expected),
    }
}

/// The error of `r` is the unexpected-reply error for `expected`.
pub open spec fn unexpected_value<T>(r: Result<T>, expected: Seq<char>) -> bool {
    r matches Err(e) && e@ == ErrorView::UnexpectedResponse(expected)
}

/// `r` fails with the status error of `status` (for `op`) when there is one,
/// and otherwise succeeds with a value meeting `ok`.
pub open spec fn value_checked<T>(
    r: Result<T>,
    status: Option<i32>,
    op: Seq<char>,
    ok: spec_fn(T) -> bool,
) -> bool {
    match status_error(status, op) {
        Some(ev) => r matches Err(e) && e@ == ev,
        None => r matches Ok(v) && ok(v),
    }
}

// ---------------------------------------------------------------------------
// Replies that carry only a status
// ---------------------------------------------------------------------------

pub open spec fn send_text_status(resp: proto::ServerOriginatedMessage) -> Option<Option<i32>> {
    match resp.submessage {
        Some(Submessage::SendTextResponse(x)) => Some(x.status),
        _ => None,
    }
}

pub fn send_text_reply(resp: proto::ServerOriginatedMessage) -> (r: Result<()>)
    ensures
        unit_reply(r, send_text_status(resp), "SendText"@, "SendTextResponse"@),
        match resp.submessage {
            Some(Submessage::SendTextResponse(x)) => status_checked(r, x.status, "SendText"@),
            _ => unexpected(r, "SendTextResponse"@),
        },
{
    match resp.submessage {
        Some(Submessage::SendTextResponse(x)) => check_status_i32(x.status, "SendText"),
        _ => Err(Error::UnexpectedResponse { expected: "SendTextResponse" }),
    }
}

/// A SendText reply whose status is a code other than 0 is the status error
/// naming that code; one with no status or status 0 is success.
pub proof fn law_send_text_reply_checks_its_status(
    resp: proto::ServerOriginatedMessage,
    x: proto::SendTextResponse,
    r: Result<()>,
)
    requires
        resp.submessage == Some(Submessage::SendTextResponse(x)),
        unit_reply(r, send_text_status(resp), "SendText"@, "SendTextResponse"@),
    ensures
        forall|c: i32|
            x.status == Some(c) && c != 0 ==> (r matches Err(e) && e@ == ErrorView::Status(
                "SendText returned status "@ + signed_decimal(c as int),
            )),
        x.status is None || x.status == Some(0i32) ==> r is Ok,
{
    reveal_strlit("SendText");
    reveal_strlit(" returned status ");
    reveal_strlit("SendText returned status ");
    assert("SendText"@ + " returned status "@ =~= "SendText returned status "@);
    assert forall|c: i32| x.status == Some(c) && c != 0 implies (r matches Err(e) && e@
        == ErrorView::Status("SendText returned status "@ + signed_decimal(c as int))) by {
        assert("SendText"@ + " returned status "@ + signed_decimal(c as int) =~= "SendText returned status "@
            + signed_decimal(c as int));
    }
}

pub open spec fn activate_status(resp: proto::ServerOriginatedMessage) -> Option<Option<i32>> {
    match resp.submessage {
        Some(Submessage::ActivateResponse(x)) => Some(x.status),
        _ => None,
    }
}

pub fn activate_reply(resp: proto::ServerOriginatedMessage) -> (r: Result<()>)
    ensures
        unit_reply(r, activate_status(resp), "Activate"@, "ActivateResponse"@),
        match resp.submessage {
            Some(Submessage::ActivateResponse(x)) => status_checked(r, x.status, "Activate"@),
            _ => unexpected(r, "ActivateResponse"@),
        },
{
    match resp.submessage {
        Some(Submessage::ActivateResponse(x)) => check_status_i32(x.status, "Activate"),
        _ => Err(Error::UnexpectedResponse { expected: "ActivateResponse" }),
    }
}

pub open spec fn transaction_status(resp: proto::ServerOriginatedMessage) -> Option<Option<i32>> {
    match resp.submessage {
        Some(Submessage::TransactionResponse(x)) => Some(x.status),
        _ => None,
    }
}

pub fn transaction_reply(resp: proto::ServerOriginatedMessage) -> (r: Result<()>)
    ensures
        unit_reply(r, transaction_status(resp), "Transaction"@, "TransactionResponse"@),
        match resp.submessage {
            Some(Submessage::TransactionResponse(x)) => status_checked(r, x.status, "Transaction"@),
            _ => unexpected(r, "TransactionResponse"@),
        },
{
    match resp.submessage {
        Some(Submessage::TransactionResponse(x)) => check_status_i32(x.status, "Transaction"),
        _ => Err(Error::UnexpectedResponse { expected: "TransactionResponse" }),
    }
}

pub open spec fn set_variable_status(resp: proto::ServerOriginatedMessage) -> Option<Option<i32>> {
    match resp.submessage {
        Some(Submessage::VariableResponse(x)) => Some(x.status),
        _ => None,
    }
}

pub fn set_variable_reply(resp: proto::ServerOriginatedMessage) -> (r: Result<()>)
    ensures
        unit_reply(r, set_variable_status(resp), "Variable"@, "VariableResponse"@),
        match resp.submessage {
            Some(Submessage::VariableResponse(x)) => status_checked(r, x.status, "Variable"@),
            _ => unexpected(r, "VariableResponse"@),
        },
{
    match resp.submessage {
        Some(Submessage::VariableResponse(x)) => check_variable_status(x.status),
        _ => Err(Error::UnexpectedResponse { expected: "VariableResponse" }),
    }
}

pub open spec fn set_profile_property_status(resp: proto::ServerOriginatedMessage) -> Option<
    Option<i32>,
> {
    match resp.submessage {
        Some(Submessage::SetProfilePropertyResponse(x)) => Some(x.status),
        _ => None,
    }
}

pub fn set_profile_property_reply(resp: proto::ServerOriginatedMessage) -> (r: Result<()>)
    ensures
        unit_reply(
            r,
            set_profile_property_status(resp),
            "SetProfileProperty"@,
            "SetProfilePropertyResponse"@,
        ),
        match resp.submessage {
            Some(Submessage::SetProfilePropertyResponse(x)) => status_checked(
                r,
                x.status,
                "SetProfileProperty"@,
            ),
            _ => unexpected(r, "SetProfilePropertyResponse"@),
        },
{
    match resp.submessage {
        Some(Submessage::SetProfilePropertyResponse(x)) => check_status_i32(
            x.status,
            "SetProfileProperty",
        ),
        _ => Err(Error::UnexpectedResponse { expected: "SetProfilePropertyResponse" }),
    }
}

pub open spec fn restart_status(resp: proto::ServerOriginatedMessage) -> Option<Option<i32>> {
    match resp.submessage {
        Some(Submessage::RestartSessionResponse(x)) => Some(x.status),
        _ => None,
    }
}

pub fn restart_reply(resp: proto::ServerOriginatedMessage) -> (r: Result<()>)
    ensures
        unit_reply(r, restart_status(resp), "RestartSession"@, "RestartSessionResponse"@),
        match resp.submessage {
            Some(Submessage::RestartSessionResponse(x)) => status_checked(r, x.status, "RestartSession"@),
            _ => unexpected(r, "RestartSessionResponse"@),
        },
{
    match resp.submessage {
        Some(Submessage::RestartSessionResponse(x)) => check_status_i32(x.status, "RestartSession"),
        _ => Err(Error::UnexpectedResponse { expected: "RestartSessionResponse" }),
    }
}

pub open spec fn set_property_status(resp: proto::ServerOriginatedMessage) -> Option<Option<i32>> {
    match resp.submessage {
        Some(Submessage::SetPropertyResponse(x)) => Some(x.status),
        _ => None,
    }
}

pub fn set_property_reply(resp: proto::ServerOriginatedMessage) -> (r: Result<()>)
    ensures
        unit_reply(r, set_property_status(resp), "SetProperty"@, "SetPropertyResponse"@),
        match resp.submessage {
            Some(Submessage::SetPropertyResponse(x)) => status_checked(r, x.status, "SetProperty"@),
            _ => unexpected(r, "SetPropertyResponse"@),
        },
{
    match resp.submessage {
        Some(Submessage::SetPropertyResponse(x)) => check_status_i32(x.status, "SetProperty"),
        _ => Err(Error::UnexpectedResponse { expected: "SetPropertyResponse" }),
    }
}

/// The first of `statuses` that is not `ok`: the failure a reply with one
/// status per item reports.
pub open spec fn first_failure(statuses: Seq<i32>, ok: i32) -> Option<i32>
    decreases statuses.len(),
{
    if statuses.len() == 0 {
        None
    } else if statuses[0] != ok {
        Some(statuses[0])
    } else {
        first_failure(statuses.drop_first(), ok)
    }
}

/// A reply with one status per item reports no failure exactly when every
/// status is OK, and a failure it reports is one of the statuses that came
/// back.
pub proof fn law_fails_iff_some_status_not_ok(statuses: Seq<i32>, ok: i32)
    ensures
        first_failure(statuses, ok) is None <==> forall|i: int|
            0 <= i < statuses.len() ==> #[trigger] statuses[i] == ok,
        first_failure(statuses, ok) matches Some(code) ==> code != ok && statuses.contains(code),
    decreases statuses.len(),
{
    if statuses.len() > 0 {
        let rest = statuses.drop_first();
        law_fails_iff_some_status_not_ok(rest, ok);
        if statuses[0] == ok {
            assert forall|i: int| 0 <= i < rest.len() implies #[trigger] rest[i] == statuses[i + 1] by {}
            if first_failure(rest, ok) is None {
                assert forall|i: int| 0 <= i < statuses.len() implies #[trigger] statuses[i] == ok by {
                    if i > 0 {
                        assert(statuses[i] == rest[i - 1]);
                    }
                }
            } else {
                let code = first_failure(rest, ok)->0;
                let k = choose|k: int| 0 <= k < rest.len() && rest[k] == code;
                assert(statuses[k + 1] == code);
            }
        } else {
            assert(statuses[0] == statuses[0]);
        }
    }
}

/// The first of `statuses` that is not `ok`, if any.
pub fn find_failure(statuses: &Vec<i32>, ok: i32) -> (r: Option<i32>)
    ensures
        r == first_failure(statuses@, ok),
{
    let mut i: usize = 0;
    proof {
        assert(statuses@.skip(0) =~= statuses@);
    }
    while i < statuses.len()
        invariant
            i <= statuses@.len(),
            first_failure(statuses@, ok) == first_failure(statuses@.skip(i as int), ok),
        decreases statuses@.len() - i,
    {
        let status = statuses[i];
        proof {
            assert(statuses@.skip(i as int)[0] == status);
            assert(statuses@.skip(i as int).drop_first() =~= statuses@.skip(i + 1));
        }
        if status != ok {
            return Some(status);
        }
        i = i + 1;
    }
    None
}

/// A close succeeds when every closed item reports OK; otherwise the first
/// other status is reported.
pub fn close_reply(resp: proto::ServerOriginatedMessage) -> (r: Result<()>)
    ensures
        match resp.submessage {
            Some(Submessage::CloseResponse(x)) => match first_failure(
                x.statuses@,
                proto::close_response::Status::Success.spec_code(),
            ) {
                None => r is Ok,
                Some(code) => r matches Err(e) && e@ == ErrorView::Status(
                    "Close failed with status: "@ + signed_decimal(code as int),
                ),
            },
            _ => unexpected(r, "CloseResponse"@),
        },
{
    match resp.submessage {
        Some(Submessage::CloseResponse(x)) => {
            match find_failure(&x.statuses, proto::close_response::Status::Success.code()) {
                None => Ok(()),
                Some(status) => {
                    let message = "Close failed with status: ".to_string().concat(
                        i32_text(status).as_str(),
                    );
                    Err(Error::Status(message))
                },
            }
        },
        _ => Err(Error::UnexpectedResponse { expected: "CloseResponse" }),
    }
}

// ---------------------------------------------------------------------------
// Replies that carry a value
// ---------------------------------------------------------------------------

/// The text of each line, an absent text read as empty.
pub open spec fn line_texts(lines: Seq<proto::LineContents>) -> Seq<Seq<char>> {
    lines.map_values(|l: proto::LineContents| text_or_empty(l.text))
}

/// Each line of a buffer reply gives one text, in order: the line's own text,
/// or empty where it has none, whatever its other fields hold.
pub proof fn law_line_texts_are_the_lines_texts(lines: Seq<proto::LineContents>)
    ensures
        line_texts(lines).len() == lines.len(),
        forall|i: int|
            0 <= i < lines.len() ==> (#[trigger] line_texts(lines)[i]) == match lines[i].text {
                Some(t) => t@,
                None => Seq::<char>::empty(),
            },
{
}

/// The lines of a buffer reply, as text.
pub fn buffer_lines_reply(resp: proto::ServerOriginatedMessage) -> (r: Result<Vec<String>>)
    ensures
        match resp.submessage {
            Some(Submessage::GetBufferResponse(x)) => value_checked(
                r,
                x.status,
                "GetBuffer"@,
                |v: Vec<String>|
                    {
                        &&& v.deep_view() == line_texts(x.contents@)
                        &&& v@.len() == x.contents@.len()
                        &&& forall|i: int|
                            0 <= i < v@.len() ==> (#[trigger] v@[i])@ == text_or_empty(
                                x.contents@[i].text,
                            )
                    },
            ),
            _ => unexpected_value(r, "GetBufferResponse"@),
        },
{
    match resp.submessage {
        Some(Submessage::GetBufferResponse(x)) => {
            check_buffer_status(x.status)?;
            let mut lines: Vec<String> = Vec::new();
            let mut i: usize = 0;
            while i < x.contents.len()
                invariant
                    i <= x.contents@.len(),
                    lines.deep_view() == line_texts(x.contents@.take(i as int)),
                decreases x.contents@.len() - i,
            {
                let t = match &x.contents[i].text {
                    Some(t) => t.clone(),
                    None => String::new(),
                };
                let ghost before = lines.deep_view();
                lines.push(t);
                proof {
                    assert(x.contents@.take(i + 1) =~= x.contents@.take(i as int).push(x.contents@[i as int]));
                    assert(lines.deep_view() =~= before.push(t@));
                    assert(line_texts(x.contents@.take(i + 1)) =~= line_texts(x.contents@.take(i as int)).push(text_or_empty(x.contents@[i as int].text)));
                }
                i = i + 1;
            }
            proof {
                assert(x.contents@.take(x.contents@.len() as int) =~= x.contents@);
                law_line_texts_are_the_lines_texts(x.contents@);
                assert forall|i: int| 0 <= i < lines@.len() implies (#[trigger] lines@[i])@
                    == text_or_empty(x.contents@[i].text) by {
                    assert(lines.deep_view()[i] == lines@[i]@);
                }
            }
            Ok(lines)
        },
        _ => Err(Error::UnexpectedResponse { expected: "GetBufferResponse" }),
    }
}

/// The identifiers of the sessions a split created.
pub fn split_reply(resp: proto::ServerOriginatedMessage) -> (r: Result<Vec<String>>)
    ensures
        match resp.submessage {
            Some(Submessage::SplitPaneResponse(x)) => value_checked(
                r,
                x.status,
                "SplitPane"@,
                |v: Vec<String>| v == x.session_id,
            ),
            _ => unexpected_value(r, "SplitPaneResponse"@),
        },
{
    match resp.submessage {
        Some(Submessage::SplitPaneResponse(x)) => {
            check_split_status(x.status)?;
            Ok(x.session_id)
        },
        _ => Err(Error::UnexpectedResponse { expected: "SplitPaneResponse" }),
    }
}

/// The first of a sequence of values, if any.
pub open spec fn first_of<T>(s: Seq<T>) -> Option<T> {
    if s.len() > 0 {
        Some(s[0])
    } else {
        None
    }
}

/// An OK variable reply (no status, or status 0) with at least one value
/// gives the first of them; one with no value gives none.
pub proof fn law_variable_reply_gives_the_first_value(
    x: proto::VariableResponse,
    r: Result<Option<String>>,
)
    requires
        value_checked(r, x.status, "Variable"@, |v: Option<String>| v == first_of(x.values@)),
        x.status is None || x.status == Some(0i32),
    ensures
        x.values@.len() > 0 ==> r == Ok::<Option<String>, Error>(Some(x.values@[0])),
        x.values@.len() == 0 ==> r == Ok::<Option<String>, Error>(None),
{
}

/// The value of the one variable asked for (the first value returned).
pub fn variable_value_reply(resp: proto::ServerOriginatedMessage) -> (r: Result<Option<String>>)
    ensures
        match resp.submessage {
            Some(Submessage::VariableResponse(x)) => value_checked(
                r,
                x.status,
                "Variable"@,
                |v: Option<String>| v == first_of(x.values@),
            ),
            _ => unexpected_value(r, "VariableResponse"@),
        },
        resp.submessage matches Some(Submessage::VariableResponse(x)) ==> (status_error(
            x.status,
            "Variable"@,
        ) is None ==> (x.values@.len() > 0 ==> r == Ok::<Option<String>, Error>(
            Some(x.values@[0]),
        )) && (x.values@.len() == 0 ==> r == Ok::<Option<String>, Error>(None))),
{
    match resp.submessage {
        Some(Submessage::VariableResponse(x)) => {
            check_variable_status(x.status)?;
            if x.values.len() > 0 {
                Ok(Some(x.values[0].clone()))
            } else {
                Ok(None)
            }
        },
        _ => Err(Error::UnexpectedResponse { expected: "VariableResponse" }),
    }
}

pub fn profile_property_reply(resp: proto::ServerOriginatedMessage) -> (r: Result<
    Vec<proto::ProfileProperty>,
>)
    ensures
        match resp.submessage {
            Some(Submessage::GetProfilePropertyResponse(x)) => value_checked(
                r,
                x.status,
                "GetProfileProperty"@,
                |v: Vec<proto::ProfileProperty>| v == x.properties,
            ),
            _ => unexpected_value(r, "GetProfilePropertyResponse"@),
        },
{
    match resp.submessage {
        Some(Submessage::GetProfilePropertyResponse(x)) => {
            check_status_i32(x.status, "GetProfileProperty")?;
            Ok(x.properties)
        },
        _ => Err(Error::UnexpectedResponse { expected: "GetProfilePropertyResponse" }),
    }
}

/// An injection succeeds when every session reports OK; otherwise the first
/// other status is reported.
pub fn inject_reply(resp: proto::ServerOriginatedMessage) -> (r: Result<()>)
    ensures
        match resp.submessage {
            Some(Submessage::InjectResponse(x)) => match first_failure(
                x.status@,
                proto::inject_response::Status::Success.spec_code(),
            ) {
                None => r is Ok,
                Some(code) => r matches Err(e) && e@ == ErrorView::Status(
                    "Inject failed with status: "@ + signed_decimal(code as int),
                ),
            },
            _ => unexpected(r, "InjectResponse"@),
        },
{
    match resp.submessage {
        Some(Submessage::InjectResponse(x)) => {
            match find_failure(&x.status, proto::inject_response::Status::Success.code()) {
                None => Ok(()),
                Some(status) => {
                    let message = "Inject failed with status: ".to_string().concat(
                        i32_text(status).as_str(),
                    );
                    Err(Error::Status(message))
                },
            }
        },
        _ => Err(Error::UnexpectedResponse { expected: "InjectResponse" }),
    }
}

/// A prompt reply is handed back as it came, whatever its status.
pub fn prompt_reply(resp: proto::ServerOriginatedMessage) -> (r: Result<proto::GetPromptResponse>)
    ensures
        match resp.submessage {
            Some(Submessage::GetPromptResponse(x)) => r == Ok::<proto::GetPromptResponse, Error>(x),
            _ => unexpected_value(r, "GetPromptResponse"@),
        },
{
    match resp.submessage {
        Some(Submessage::GetPromptResponse(x)) => Ok(x),
        _ => Err(Error::UnexpectedResponse { expected: "GetPromptResponse" }),
    }
}

/// The decimal text of a tab number, when there is one.
pub open spec fn tab_number_text(tab_id: Option<i32>) -> Option<Seq<char>> {
    match tab_id {
        Some(n) => Some(signed_decimal(n as int)),
        None => None,
    }
}

/// What a window learns from creating a tab: the identifiers iTerm2
/// reported, the tab's number rendered in decimal.
pub fn window_create_tab_reply(resp: proto::ServerOriginatedMessage) -> (r: Result<CreateTabResult>)
    ensures
        match resp.submessage {
            Some(Submessage::CreateTabResponse(x)) => value_checked(
                r,
                x.status,
                "CreateTab"@,
                |v: CreateTabResult|
                    v.tab_id.deep_view() == tab_number_text(x.tab_id) && v.session_id == x.session_id
                        && v.window_id == x.window_id,
            ),
            _ => unexpected_value(r, "CreateTabResponse"@),
        },
{
    match resp.submessage {
        Some(Submessage::CreateTabResponse(x)) => {
            check_status_i32(x.status, "CreateTab")?;
            let tab_id = match x.tab_id {
                Some(n) => Some(i32_text(n)),
                None => None,
            };
            Ok(CreateTabResult { tab_id, session_id: x.session_id, window_id: x.window_id })
        },
        _ => Err(Error::UnexpectedResponse { expected: "CreateTabResponse" }),
    }
}

pub fn property_reply(resp: proto::ServerOriginatedMessage) -> (r: Result<Option<String>>)
    ensures
        match resp.submessage {
            Some(Submessage::GetPropertyResponse(x)) => value_checked(
                r,
                x.status,
                "GetProperty"@,
                |v: Option<String>| v == x.json_value,
            ),
            _ => unexpected_value(r, "GetPropertyResponse"@),
        },
{
    match resp.submessage {
        Some(Submessage::GetPropertyResponse(x)) => {
            check_status_i32(x.status, "GetProperty")?;
            Ok(x.json_value)
        },
        _ => Err(Error::UnexpectedResponse { expected: "GetPropertyResponse" }),
    }
}

pub fn focus_reply(resp: proto::ServerOriginatedMessage) -> (r: Result<
    Vec<proto::FocusChangedNotification>,
>)
    ensures
        match resp.submessage {
            Some(Submessage::FocusResponse(x)) => r == Ok::<
                Vec<proto::FocusChangedNotification>,
                Error,
            >(x.notifications),
            _ => unexpected_value(r, "FocusResponse"@),
        },
{
    match resp.submessage {
        Some(Submessage::FocusResponse(x)) => Ok(x.notifications),
        _ => Err(Error::UnexpectedResponse { expected: "FocusResponse" }),
    }
}

pub fn list_profiles_reply(resp: proto::ServerOriginatedMessage) -> (r: Result<
    proto::ListProfilesResponse,
>)
    ensures
        match resp.submessage {
            Some(Submessage::ListProfilesResponse(x)) => r == Ok::<
                proto::ListProfilesResponse,
                Error,
            >(x),
            _ => unexpected_value(r, "ListProfilesResponse"@),
        },
{
    match resp.submessage {
        Some(Submessage::ListProfilesResponse(x)) => Ok(x),
        _ => Err(Error::UnexpectedResponse { expected: "ListProfilesResponse" }),
    }
}

/// The preset names of a color-preset reply; a reply that carries no
/// listing gives none.
pub open spec fn preset_names(response: Option<proto::color_preset_response::Response>) -> Seq<
    String,
> {
    match response {
        Some(proto::color_preset_response::Response::ListPresets(lp)) => lp.name@,
        _ => Seq::empty(),
    }
}

pub fn color_presets_reply(resp: proto::ServerOriginatedMessage) -> (r: Result<Vec<String>>)
    ensures
        match resp.submessage {
            Some(Submessage::ColorPresetResponse(x)) => value_checked(
                r,
                x.status,
                "ColorPreset"@,
                |v: Vec<String>| v@ == preset_names(x.response),
            ),
            _ => unexpected_value(r, "ColorPresetResponse"@),
        },
{
    match resp.submessage {
        Some(Submessage::ColorPresetResponse(x)) => {
            check_status_i32(x.status, "ColorPreset")?;
            match x.response {
                Some(proto::color_preset_response::Response::ListPresets(lp)) => Ok(lp.name),
                _ => Ok(Vec::new()),
            }
        },
        _ => Err(Error::UnexpectedResponse { expected: "ColorPresetResponse" }),
    }
}

pub fn arrangements_reply(resp: proto::ServerOriginatedMessage) -> (r: Result<Vec<String>>)
    ensures
        match resp.submessage {
            Some(Submessage::SavedArrangementResponse(x)) => value_checked(
                r,
                x.status,
                "SavedArrangement"@,
                |v: Vec<String>| v == x.names,
            ),
            _ => unexpected_value(r, "SavedArrangementResponse"@),
        },
{
    match resp.submessage {
        Some(Submessage::SavedArrangementResponse(x)) => {
            check_status_i32(x.status, "SavedArrangement")?;
            Ok(x.names)
        },
        _ => Err(Error::UnexpectedResponse { expected: "SavedArrangementResponse" }),
    }
}

pub fn broadcast_domains_reply(resp: proto::ServerOriginatedMessage) -> (r: Result<
    Vec<proto::BroadcastDomain>,
>)
    ensures
        match resp.submessage {
            Some(Submessage::GetBroadcastDomainsResponse(x)) => r == Ok::<
                Vec<proto::BroadcastDomain>,
                Error,
            >(x.broadcast_domains),
            _ => unexpected_value(r, "GetBroadcastDomainsResponse"@),
        },
{
    match resp.submessage {
        Some(Submessage::GetBroadcastDomainsResponse(x)) => Ok(x.broadcast_domains),
        _ => Err(Error::UnexpectedResponse { expected: "GetBroadcastDomainsResponse" }),
    }
}

} // verus!
