//! Request bookkeeping of a connection: numbering requests, and turning the
//! server's error replies into errors.
use vstd::prelude::*;
use crate::error::{error_text, Error, ErrorView, Result};
use crate::proto;
use crate::proto::server_originated_message::Submessage;

verus! {

/// Longest server error message kept, in characters.
pub const MAX_ERROR_MESSAGE_CHARS: usize = 512;

/// Most requests that may await their replies at one time.
pub const MAX_PENDING_REQUESTS: usize = 4096;

/// What a request is refused with while the connection already awaits
/// `MAX_PENDING_REQUESTS` replies.
pub const TOO_MANY_PENDING: &'static str = "too many pending requests";

/// Admits a new request while fewer than `MAX_PENDING_REQUESTS` replies are
/// awaited (`pending` of them); refuses it otherwise.
pub fn admit_request(pending: usize) -> (r: Result<()>)
    ensures
        pending < MAX_PENDING_REQUESTS ==> r is Ok,
        pending >= MAX_PENDING_REQUESTS ==> (r matches Err(e) && e@ == ErrorView::Api(
            TOO_MANY_PENDING@,
        )),
{
    if pending < MAX_PENDING_REQUESTS {
        Ok(())
    } else {
        Err(Error::Api(TOO_MANY_PENDING.to_string()))
    }
}

/// After this many undecodable messages in a row the connection stops
/// reading.
pub const MAX_CONSECUTIVE_DECODE_ERRORS: u32 = 100;

/// The number of failures at the end of a sequence of decode outcomes
/// (`true` for a message that decoded).
pub open spec fn trailing_failures(outcomes: Seq<bool>) -> nat
    decreases outcomes.len(),
{
    if outcomes.len() == 0 || outcomes.last() {
        0
    } else {
        1 + trailing_failures(outcomes.drop_last())
    }
}

/// Counts undecodable messages in a row, up to the limit.
pub struct DecodeFailures {
    run: u32,
}

impl DecodeFailures {
    /// Failures in a row so far (never above the limit).
    pub closed spec fn run(&self) -> nat {
        self.run as nat
    }

    pub fn new() -> (d: Self)
        ensures
            d.run() == 0,
    {
        DecodeFailures { run: 0 }
    }

    /// Records whether the latest message decoded; returns whether the
    /// connection should stop reading.
    pub fn record(&mut self, decoded: bool) -> (stop: bool)
        ensures
            decoded ==> final(self).run() == 0,
            !decoded ==> final(self).run() == if old(self).run() < MAX_CONSECUTIVE_DECODE_ERRORS {
                old(self).run() + 1
            } else {
                MAX_CONSECUTIVE_DECODE_ERRORS as nat
            },
            stop == (final(self).run() >= MAX_CONSECUTIVE_DECODE_ERRORS),
            final(self).run() <= MAX_CONSECUTIVE_DECODE_ERRORS,
    {
        if decoded {
            self.run = 0;
        } else if self.run < MAX_CONSECUTIVE_DECODE_ERRORS {
            self.run = self.run + 1;
        } else {
            self.run = MAX_CONSECUTIVE_DECODE_ERRORS;
        }
        self.run >= MAX_CONSECUTIVE_DECODE_ERRORS
    }
}

/// The failure count after recording `outcomes` from a fresh count.
pub open spec fn run_after(outcomes: Seq<bool>) -> nat
    decreases outcomes.len(),
{
    if outcomes.len() == 0 {
        0
    } else if outcomes.last() {
        0
    } else {
        let r = run_after(outcomes.drop_last());
        if r < MAX_CONSECUTIVE_DECODE_ERRORS {
            r + 1
        } else {
            MAX_CONSECUTIVE_DECODE_ERRORS as nat
        }
    }
}

/// Reading stops exactly when the last 100 messages all failed to decode:
/// the count after any sequence of outcomes is the number of failures at
/// its end, capped at the limit.
pub proof fn law_decode_failures_count_the_trailing_run(outcomes: Seq<bool>)
    ensures
        run_after(outcomes) == if trailing_failures(outcomes) < MAX_CONSECUTIVE_DECODE_ERRORS {
            trailing_failures(outcomes)
        } else {
            MAX_CONSECUTIVE_DECODE_ERRORS as nat
        },
        (run_after(outcomes) >= MAX_CONSECUTIVE_DECODE_ERRORS) == (trailing_failures(outcomes)
            >= MAX_CONSECUTIVE_DECODE_ERRORS),
    decreases outcomes.len(),
{
    if outcomes.len() > 0 {
        law_decode_failures_count_the_trailing_run(outcomes.drop_last());
    }
}

/// Numbers requests: the first request gets 1, every further one the next
/// integer.
pub struct RequestIds {
    next: i64,
}

impl RequestIds {
    /// The number the next request will get.
    pub closed spec fn next_id(&self) -> i64 {
        self.next
    }

    pub fn new() -> (ids: Self)
        ensures
            ids.next_id() == 1,
    {
        RequestIds { next: 1 }
    }

    /// Hands out the next number, or nothing once the numbers are used up.
    pub fn fresh(&mut self) -> (id: Option<i64>)
        ensures
            old(self).next_id() < i64::MAX ==> id == Some(old(self).next_id()) && final(self).next_id()
                == old(self).next_id() + 1,
            old(self).next_id() == i64::MAX ==> id is None && final(self).next_id() == old(
                self,
            ).next_id(),
    {
        if self.next < i64::MAX {
            let id = self.next;
            self.next = self.next + 1;
            Some(id)
        } else {
            None
        }
    }
}

/// `msg` with its request number set to `id`.
pub fn stamp(msg: proto::ClientOriginatedMessage, id: i64) -> (r: proto::ClientOriginatedMessage)
    ensures
        r.id == Some(id),
        r.submessage == msg.submessage,
{
    proto::ClientOriginatedMessage { id: Some(id), submessage: msg.submessage }
}

/// Where an incoming message goes.
#[derive(Debug, PartialEq, Eq)]
pub enum Route {
    /// To the caller waiting on the request with this number.
    Reply(i64),
    /// To the notification subscribers.
    Notification,
    /// Nowhere: neither a notification nor numbered.
    Discard,
}

/// Notifications go to the subscribers; any other message goes to the
/// request whose number it carries, or is discarded when it carries none.
pub fn route(msg: &proto::ServerOriginatedMessage) -> (r: Route)
    ensures
        msg.submessage matches Some(Submessage::Notification(_)) ==> r == Route::Notification,
        !(msg.submessage matches Some(Submessage::Notification(_))) ==> match msg.id {
            Some(id) => r == Route::Reply(id),
            None => r == Route::Discard,
        },
{
    match &msg.submessage {
        Some(Submessage::Notification(_)) => Route::Notification,
        _ => match msg.id {
            Some(id) => Route::Reply(id),
            None => Route::Discard,
        },
    }
}

/// The first `MAX_ERROR_MESSAGE_CHARS` characters of a server error message.
pub open spec fn kept_error_text(s: Seq<char>) -> Seq<char> {
    if s.len() <= MAX_ERROR_MESSAGE_CHARS {
        s
    } else {
        s.take(MAX_ERROR_MESSAGE_CHARS as int)
    }
}

/// A server error message of at most 512 characters is shown whole in the
/// error's text.
pub proof fn law_short_server_error_shown_whole(message: Seq<char>)
    requires
        message.len() <= MAX_ERROR_MESSAGE_CHARS,
    ensures
        error_text(ErrorView::Api(kept_error_text(message))) == "API error from server: "@ + message,
{
}

/// A reply is handed on unless the server answered with an error string,
/// which becomes an API error holding (at most the first 512 characters of)
/// that string.
pub fn server_reply(resp: proto::ServerOriginatedMessage) -> (r: Result<proto::ServerOriginatedMessage>)
    ensures
        match resp.submessage {
            Some(Submessage::Error(s)) => r matches Err(e) && e@ == ErrorView::Api(kept_error_text(s@)),
            _ => r == Ok::<proto::ServerOriginatedMessage, Error>(resp),
        },
{
    match resp.submessage {
        Some(Submessage::Error(s)) => {
            let n = s.as_str().unicode_len();
            if n <= MAX_ERROR_MESSAGE_CHARS {
                Err(Error::Api(s))
            } else {
                let kept = s.as_str().substring_char(0, MAX_ERROR_MESSAGE_CHARS).to_string();
                proof {
                    assert(kept@ =~= s@.take(MAX_ERROR_MESSAGE_CHARS as int));
                }
                Err(Error::Api(kept))
            }
        },
        _ => Ok(resp),
    }
}

} // verus!
