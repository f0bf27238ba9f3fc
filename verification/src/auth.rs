//! Credentials for the iTerm2 API: from the environment, or from iTerm2
//! itself through AppleScript.
use vstd::prelude::*;
use crate::error::{Error, ErrorView};
use crate::text::{
    debug_quoted, is_gap, is_white_space, is_word, law_white_space_is_unicode_white_space,
    lemma_words_of_pair, split_white_space, str_debug_text, words,
};

verus! {

/// The cookie and key that iTerm2 asks of an API client. The type has no
/// `Debug`, so that neither value can reach a log by accident;
/// `redacted_text` stands for it in printouts.
pub struct Credentials {
    pub cookie: String,
    pub key: String,
}

impl View for Credentials {
    type V = (Seq<char>, Seq<char>);

    open spec fn view(&self) -> (Seq<char>, Seq<char>) {
        (self.cookie@, self.key@)
    }
}

/// What a printout of credentials shows: both values hidden.
pub const REDACTED_CREDENTIALS: &'static str = "Credentials { cookie: \"[REDACTED]\", key: \"[REDACTED]\" }";

impl Credentials {
    /// A text that stands for these credentials in logs and messages, with
    /// neither the cookie nor the key in it.
    pub fn redacted_text(&self) -> (t: String)
        ensures
            t@ == REDACTED_CREDENTIALS@,
    {
        REDACTED_CREDENTIALS.to_string()
    }
}

/// Runs an AppleScript and returns its standard output, or its error text.
pub trait AppleScriptRunner: Send + Sync {
    fn run_osascript(&self, script: &str) -> std::result::Result<String, String>;
}

/// The AppleScript that asks iTerm2 for a cookie and key.
pub const APPLESCRIPT_REQUEST: &'static str = "tell application \"iTerm2\" to request cookie and key";

/// Outcome of a credential lookup, with texts as character sequences.
pub open spec fn credentials_result(
    r: std::result::Result<Credentials, Error>,
) -> std::result::Result<(Seq<char>, Seq<char>), ErrorView> {
    match r {
        Ok(c) => Ok(c@),
        Err(e) => Err(e@),
    }
}

/// Reading of AppleScript output: exactly two white-space separated words,
/// the cookie and the key.
pub open spec fn parse_cookie_key_spec(output: Seq<char>) -> std::result::Result<
    (Seq<char>, Seq<char>),
    ErrorView,
> {
    let w = words(output);
    if w.len() == 2 {
        Ok((w[0], w[1]))
    } else {
        Err(
            ErrorView::Auth(
                "Failed to parse cookie/key from osascript output: "@ + str_debug_text(output),
            ),
        )
    }
}

/// The runner's outcome with its texts as character sequences.
pub open spec fn runner_outcome(out: std::result::Result<String, String>) -> std::result::Result<
    Seq<char>,
    Seq<char>,
> {
    match out {
        Ok(o) => Ok(o@),
        Err(e) => Err(e@),
    }
}

/// A cookie and a key printed on one line (or on two), separated by white
/// space, are read back as that cookie and that key.
pub proof fn law_cookie_key_round_trip(cookie: Seq<char>, sep: Seq<char>, key: Seq<char>)
    requires
        is_word(cookie),
        is_gap(sep),
        is_word(key),
    ensures
        parse_cookie_key_spec(cookie + sep + key) == Ok::<(Seq<char>, Seq<char>), ErrorView>((cookie, key)),
{
    lemma_words_of_pair(cookie, sep, key);
}

/// A cookie and a key made of printable ASCII characters (dashes included,
/// as in a UUID-shaped key), printed with one space between them, are read
/// back whole as that cookie and that key.
pub proof fn law_printable_cookie_and_key_read_back_whole(cookie: Seq<char>, key: Seq<char>)
    requires
        cookie.len() > 0,
        key.len() > 0,
        forall|i: int| 0 <= i < cookie.len() ==> '!' <= #[trigger] cookie[i] <= '~',
        forall|i: int| 0 <= i < key.len() ==> '!' <= #[trigger] key[i] <= '~',
    ensures
        parse_cookie_key_spec(cookie + seq![' '] + key) == Ok::<(Seq<char>, Seq<char>), ErrorView>(
            (cookie, key),
        ),
{
    assert forall|i: int| 0 <= i < cookie.len() implies !is_white_space(#[trigger] cookie[i]) by {
        law_white_space_is_unicode_white_space(cookie[i]);
    }
    assert forall|i: int| 0 <= i < key.len() implies !is_white_space(#[trigger] key[i]) by {
        law_white_space_is_unicode_white_space(key[i]);
    }
    law_white_space_is_unicode_white_space(' ');
    assert(is_gap(seq![' ']));
    law_cookie_key_round_trip(cookie, seq![' '], key);
}

/// Credentials from the two environment variables: both set and non-empty.
pub open spec fn env_credentials_spec(cookie: Option<Seq<char>>, key: Option<Seq<char>>) -> Option<
    (Seq<char>, Seq<char>),
> {
    match (cookie, key) {
        (Some(c), Some(k)) => if c.len() > 0 && k.len() > 0 {
            Some((c, k))
        } else {
            None
        },
        _ => None,
    }
}

/// Credentials from what the AppleScript runner returned.
pub open spec fn osascript_credentials_spec(
    out: std::result::Result<Seq<char>, Seq<char>>,
) -> std::result::Result<(Seq<char>, Seq<char>), ErrorView> {
    match out {
        Ok(o) => parse_cookie_key_spec(o),
        Err(e) => Err(ErrorView::Auth("osascript failed: "@ + e)),
    }
}

pub fn parse_cookie_key(output: &str) -> (r: std::result::Result<Credentials, Error>)
    ensures
        credentials_result(r) == parse_cookie_key_spec(output@),
{
    let parts = split_white_space(output);
    proof {
        assert(parts@.map_values(|p: String| p@).len() == parts@.len());
    }
    if parts.len() == 2 {
        let cookie = parts[0].clone();
        let key = parts[1].clone();
        proof {
            assert(parts@.map_values(|p: String| p@)[0] == parts@[0]@);
            assert(parts@.map_values(|p: String| p@)[1] == parts@[1]@);
        }
        Ok(Credentials { cookie, key })
    } else {
        let shown = debug_quoted(output);
        Err(
            Error::Auth(
                "Failed to parse cookie/key from osascript output: ".to_string().concat(
                    shown.as_str(),
                ),
            ),
        )
    }
}

/// Credentials taken from the values of `ITERM2_COOKIE` and `ITERM2_KEY`,
/// when both are present and non-empty.
pub fn credentials_from_env(cookie: Option<String>, key: Option<String>) -> (r: Option<Credentials>)
    ensures
        r matches Some(c) ==> env_credentials_spec(cookie.deep_view(), key.deep_view()) == Some(c@),
        r is None ==> env_credentials_spec(cookie.deep_view(), key.deep_view()) is None,
{
    match (cookie, key) {
        (Some(cookie), Some(key)) => {
            if !cookie.as_str().is_empty() && !key.as_str().is_empty() {
                Some(Credentials { cookie, key })
            } else {
                None
            }
        },
        _ => None,
    }
}

/// Credentials from the outcome of the AppleScript request.
pub fn osascript_credentials(out: std::result::Result<String, String>) -> (r: std::result::Result<
    Credentials,
    Error,
>)
    ensures
        credentials_result(r) == osascript_credentials_spec(runner_outcome(out)),
{
    match out {
        Ok(output) => parse_cookie_key(output.as_str()),
        Err(e) => Err(Error::Auth("osascript failed: ".to_string().concat(e.as_str()))),
    }
}

/// Resolves credentials: from the environment variables `ITERM2_COOKIE` and
/// `ITERM2_KEY` (read through `env_fn`) when both are set and non-empty,
/// else from the output of the AppleScript request run by `runner`.
pub fn resolve_credentials_with_env<R: AppleScriptRunner, F: Fn(&str) -> Option<String>>(
    runner: &R,
    env_fn: F,
) -> (r: std::result::Result<Credentials, Error>)
    requires
        forall|name: &str| env_fn.requires((name,)),
    ensures
        exists|cookie: Option<String>, key: Option<String>|
            {
                &&& env_fn.ensures(("ITERM2_COOKIE",), cookie)
                &&& env_fn.ensures(("ITERM2_KEY",), key)
                &&& match env_credentials_spec(cookie.deep_view(), key.deep_view()) {
                    Some(c) => credentials_result(r) == Ok::<(Seq<char>, Seq<char>), ErrorView>(c),
                    None => exists|out: std::result::Result<String, String>|
                        {
                            &&& call_ensures(R::run_osascript, (runner, APPLESCRIPT_REQUEST), out)
                            &&& credentials_result(r) == osascript_credentials_spec(
                                runner_outcome(out),
                            )
                        },
                }
            },
{
    let cookie = env_fn("ITERM2_COOKIE");
    let key = env_fn("ITERM2_KEY");
    let ghost cookie_seen = cookie;
    let ghost key_seen = key;
    match credentials_from_env(cookie, key) {
        Some(c) => Ok(c),
        None => {
            let out = runner.run_osascript(APPLESCRIPT_REQUEST);
            let ghost out_seen = out;
            let r = osascript_credentials(out);
            assert(credentials_result(r) == osascript_credentials_spec(runner_outcome(out_seen)));
            r
        },
    }
}

} // verus!
