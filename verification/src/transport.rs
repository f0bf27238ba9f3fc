//! What the WebSocket handshake with iTerm2 carries.
use vstd::prelude::*;
use crate::auth::Credentials;

verus! {

/// The WebSocket subprotocol of the iTerm2 API.
pub const SUBPROTOCOL: &'static str = "api.iterm2.com";

/// The URL of the legacy TCP endpoint; also the request URL used over a
/// Unix socket.
pub const TCP_URL: &'static str = "ws://localhost:1912";

/// The origin the handshake claims.
pub const ORIGIN: &'static str = "ws://localhost";

/// The library version reported to iTerm2.
pub const LIBRARY_VERSION: &'static str = "0.1.0";

/// Largest WebSocket frame accepted (16 MiB).
pub const MAX_FRAME_SIZE: usize = 16 * 1024 * 1024;

/// Largest WebSocket message accepted (64 MiB).
pub const MAX_MESSAGE_SIZE: usize = 64 * 1024 * 1024;

/// The headers of the handshake, in order, as (name, value) texts.
pub open spec fn handshake_headers_spec(
    cookie: Seq<char>,
    key: Seq<char>,
    app_name: Seq<char>,
) -> Seq<(Seq<char>, Seq<char>)> {
    seq![
        ("Sec-WebSocket-Protocol"@, "api.iterm2.com"@),
        ("Origin"@, "ws://localhost"@),
        ("x-iterm2-library-version"@, "rust 0.1.0"@),
        ("x-iterm2-cookie"@, cookie),
        ("x-iterm2-key"@, key),
        ("x-iterm2-advisory-name"@, app_name),
    ]
}

/// The (name, value) texts of a list of header pairs.
pub open spec fn header_texts(h: Seq<(String, String)>) -> Seq<(Seq<char>, Seq<char>)> {
    h.map_values(|p: (String, String)| (p.0@, p.1@))
}

fn header(name: &str, value: String) -> (h: (String, String))
    ensures
        h.0@ == name@,
        h.1@ == value@,
{
    (name.to_string(), value)
}

/// The headers that authenticate the client and name it to iTerm2.
pub fn handshake_headers(credentials: &Credentials, app_name: &str) -> (h: Vec<(String, String)>)
    ensures
        header_texts(h@) == handshake_headers_spec(
            credentials.cookie@,
            credentials.key@,
            app_name@,
        ),
{
    let mut h: Vec<(String, String)> = Vec::new();
    h.push(header("Sec-WebSocket-Protocol", SUBPROTOCOL.to_string()));
    h.push(header("Origin", ORIGIN.to_string()));
    let version = "rust ".to_string().concat(LIBRARY_VERSION);
    proof {
        reveal_strlit("rust ");
        reveal_strlit("0.1.0");
        reveal_strlit("rust 0.1.0");
        assert(version@ =~= "rust 0.1.0"@);
    }
    h.push(header("x-iterm2-library-version", version));
    h.push(header("x-iterm2-cookie", credentials.cookie.clone()));
    h.push(header("x-iterm2-key", credentials.key.clone()));
    h.push(header("x-iterm2-advisory-name", app_name.to_string()));
    proof {
        assert(header_texts(h@) =~= handshake_headers_spec(
            credentials.cookie@,
            credentials.key@,
            app_name@,
        ));
    }
    h
}

} // verus!
