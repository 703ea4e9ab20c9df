//! What is said to the upstream engine when the connection is opened, and
//! how its headers are shown without the credential.

use vstd::prelude::*;
use crate::wire::text_of;

verus! {

/// The address of the upstream engine for the model `model`.
pub open spec fn upstream_url_spec(model: Seq<char>) -> Seq<char> {
    "wss://api.openai.com/v1/realtime?model="@ + model
}

/// The address of the upstream engine for the model `model`.
pub fn upstream_url(model: &str) -> (url: String)
    ensures
        url@ == upstream_url_spec(model@),
{
    String::from_str("wss://api.openai.com/v1/realtime?model=").concat(model)
}

/// The views of a list of headers.
pub open spec fn header_views(hs: Seq<(String, String)>) -> Seq<(Seq<char>, Seq<char>)> {
    hs.map_values(|h: (String, String)| (h.0@, h.1@))
}

/// The headers of the opening request: the upgrade to a WebSocket of
/// protocol version 13 with the handshake key `ws_key`, the subprotocol
/// hint, the bearer credential `api_key` and the protocol version of the
/// engine.
pub open spec fn handshake_headers_spec(api_key: Seq<char>, ws_key: Seq<char>) -> Seq<
    (Seq<char>, Seq<char>),
> {
    seq![
        ("Host"@, "api.openai.com"@),
        ("Upgrade"@, "websocket"@),
        ("Connection"@, "Upgrade"@),
        ("Sec-WebSocket-Version"@, "13"@),
        ("Sec-WebSocket-Key"@, ws_key),
        ("Sec-WebSocket-Protocol"@, "realtime"@),
        ("Authorization"@, "Bearer "@ + api_key),
        ("OpenAI-Beta"@, "realtime=v1"@),
    ]
}

/// The headers of the opening request, in order.
pub fn handshake_headers(api_key: &str, ws_key: &str) -> (headers: Vec<(String, String)>)
    ensures
        header_views(headers@) == handshake_headers_spec(api_key@, ws_key@),
{
    let mut headers: Vec<(String, String)> = Vec::new();
    headers.push((String::from_str("Host"), String::from_str("api.openai.com")));
    headers.push((String::from_str("Upgrade"), String::from_str("websocket")));
    headers.push((String::from_str("Connection"), String::from_str("Upgrade")));
    headers.push((String::from_str("Sec-WebSocket-Version"), String::from_str("13")));
    headers.push((String::from_str("Sec-WebSocket-Key"), String::from_str(ws_key)));
    headers.push((String::from_str("Sec-WebSocket-Protocol"), String::from_str("realtime")));
    headers.push((String::from_str("Authorization"), String::from_str("Bearer ").concat(api_key)));
    headers.push((String::from_str("OpenAI-Beta"), String::from_str("realtime=v1")));
    assert(header_views(headers@) =~= handshake_headers_spec(api_key@, ws_key@));
    headers
}

/// The code of a character, with the ASCII capitals moved onto the small
/// letters.
pub open spec fn ascii_lower_code(c: char) -> u32 {
    if 65 <= c as u32 && c as u32 <= 90 {
        (c as u32 + 32) as u32
    } else {
        c as u32
    }
}

/// Whether two texts are the same but for the case of ASCII letters.
pub open spec fn same_ignoring_ascii_case(a: Seq<char>, b: Seq<char>) -> bool {
    a.len() == b.len() && forall|i: int|
        0 <= i < a.len() ==> ascii_lower_code(#[trigger] a[i]) == ascii_lower_code(b[i])
}

fn lower_code(c: char) -> (code: u32)
    ensures
        code == ascii_lower_code(c),
{
    let code: u32 = c as u32;
    if 65 <= code && code <= 90 {
        code + 32
    } else {
        code
    }
}

/// Whether two texts are the same but for the case of ASCII letters.
pub fn eq_ignore_ascii_case(a: &str, b: &str) -> (same: bool)
    ensures
        same == same_ignoring_ascii_case(a@, b@),
{
    let n = a.unicode_len();
    if n != b.unicode_len() {
        return false;
    }
    let mut i: usize = 0;
    while i < n
        invariant
            i <= n,
            n == a@.len(),
            n == b@.len(),
            forall|j: int| 0 <= j < i ==> ascii_lower_code(#[trigger] a@[j]) == ascii_lower_code(b@[j]),
        decreases n - i,
    {
        if lower_code(a.get_char(i)) != lower_code(b.get_char(i)) {
            return false;
        }
        i += 1;
    }
    true
}

/// What is shown of one header: the name as it is; in place of the value of
/// an `Authorization` header, in any case of its letters, `<redacted>`; in
/// place of a value that is no text, `<bin>`.
pub open spec fn redact_one(name: Seq<char>, value: Option<Seq<char>>) -> (Seq<char>, Seq<char>) {
    if same_ignoring_ascii_case(name, "authorization"@) {
        (name, "<redacted>"@)
    } else {
        match value {
            Some(v) => (name, v),
            None => (name, "<bin>"@),
        }
    }
}

/// What is shown of a list of headers: each header is shown as `redact_one`
/// says, in the order given. A value that is no text is given as `None`.
pub fn redact_headers(headers: &Vec<(String, Option<String>)>) -> (shown: Vec<(String, String)>)
    ensures
        shown@.len() == headers@.len(),
        forall|i: int|
            0 <= i < headers@.len() ==> (#[trigger] shown@[i].0@, shown@[i].1@) == redact_one(
                headers@[i].0@,
                text_of(headers@[i].1),
            ),
{
    let mut shown: Vec<(String, String)> = Vec::new();
    let mut i: usize = 0;
    while i < headers.len()
        invariant
            i <= headers@.len(),
            shown@.len() == i,
            forall|j: int|
                0 <= j < i ==> (#[trigger] shown@[j].0@, shown@[j].1@) == redact_one(
                    headers@[j].0@,
                    text_of(headers@[j].1),
                ),
        decreases headers@.len() - i,
    {
        let name = headers[i].0.clone();
        let value = if eq_ignore_ascii_case(name.as_str(), "authorization") {
            String::from_str("<redacted>")
        } else {
            match &headers[i].1 {
                Some(v) => v.clone(),
                None => String::from_str("<bin>"),
            }
        };
        shown.push((name, value));
        i += 1;
    }
    shown
}

} // verus!
