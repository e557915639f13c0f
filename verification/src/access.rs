//! Access control for the dashboard transport, and preparation of the
//! remote backend's credentials.
//!
//! A request proves itself with the shared token, either in a
//! `Bearer`-style authorization header or in a `token` query parameter.
//! The backend's credentials are the form fields joined as `user:secret`
//! and encoded in base64 behind a `Basic` marker.

use vstd::prelude::*;
use vstd::string::*;

use base64::Engine as _;

use crate::kvlist::str_eq;
use crate::text::{trim_of, trimmed};

verus! {

/// The view of an optional borrowed string.
pub open spec fn opt_str_view(o: Option<&str>) -> Option<Seq<char>> {
    match o {
        Some(s) => Some(s@),
        None => None,
    }
}

/// Whether the query parameter alone authorizes the request: it must be
/// present and equal to the expected token.
pub open spec fn spec_query_token_valid(query_token: Option<Seq<char>>, token: Seq<char>) -> bool {
    query_token == Some(token)
}

/// Whether a request is authorized. An authorization header of the form
/// `Bearer <token>` is consulted first: its suffix must equal the expected
/// token. Any other header shape, or no header, falls back to the query
/// parameter.
pub open spec fn spec_token_valid(
    auth_header: Option<Seq<char>>,
    query_token: Option<Seq<char>>,
    token: Seq<char>,
) -> bool {
    match auth_header {
        Some(h) => if h.len() >= 7 && h.subrange(0, 7) == "Bearer "@ {
            h.subrange(7, h.len() as int) == token
        } else {
            spec_query_token_valid(query_token, token)
        },
        None => spec_query_token_valid(query_token, token),
    }
}

fn starts_with_bearer(h: &str) -> (r: bool)
    requires
        h@.len() >= 7,
    ensures
        r == (h@.subrange(0, 7) == "Bearer "@),
{
    proof {
        reveal_strlit("Bearer ");
    }
    let r = h.get_char(0) == 'B' && h.get_char(1) == 'e' && h.get_char(2) == 'a' && h.get_char(3)
        == 'r' && h.get_char(4) == 'e' && h.get_char(5) == 'r' && h.get_char(6) == ' ';
    proof {
        assert forall|i: int| 0 <= i < 7 implies h@.subrange(0, 7)[i] == h@[i] by {}
        if r {
            assert(h@.subrange(0, 7) =~= "Bearer "@);
        } else {
            assert(h@.subrange(0, 7) != "Bearer "@);
        }
    }
    r
}

fn query_token_matches(query_token: Option<&str>, token: &str) -> (r: bool)
    ensures
        r == spec_query_token_valid(opt_str_view(query_token), token@),
{
    match query_token {
        Some(t) => str_eq(t, token),
        None => false,
    }
}

/// Decides whether a request may reach the dashboard or its configuration
/// endpoints, from the request's authorization header (if it carried one),
/// its `token` query parameter (if any), and the expected token.
pub fn is_token_valid(auth_header: Option<&str>, query_token: Option<&str>, token: &str) -> (r:
    bool)
    ensures
        r == spec_token_valid(opt_str_view(auth_header), opt_str_view(query_token), token@),
{
    match auth_header {
        Some(h) => {
            let hlen = h.unicode_len();
            if hlen >= 7 && starts_with_bearer(h) {
                let provided = h.substring_char(7, hlen);
                str_eq(provided, token)
            } else {
                query_token_matches(query_token, token)
            }
        },
        None => query_token_matches(query_token, token),
    }
}

/// What base64's standard engine (RFC 4648, with padding) makes of a
/// string's UTF-8 bytes. A function of the characters alone.
pub uninterp spec fn base64_of(s: Seq<char>) -> Seq<char>;

/// Relies on base64's `STANDARD` engine: encodes the string's UTF-8 bytes,
/// and an empty input gives an empty output. The engine's only panic is an
/// overflow while sizing the output, which cannot happen for a slice held
/// in memory (its length is at most `isize::MAX`).
#[verifier::external_body]
fn base64_standard(s: &str) -> (r: String)
    ensures
        r@ == base64_of(s@),
        s@.len() == 0 ==> r@.len() == 0,
{
    base64::engine::general_purpose::STANDARD.encode(s.as_bytes())
}

/// The `Basic` authorization value for the remote backend: the trimmed
/// instance identifier and API token joined by a colon, base64-encoded.
pub open spec fn spec_basic_auth(instance_id: Seq<char>, api_token: Seq<char>) -> Seq<char> {
    "Basic "@ + base64_of(trim_of(instance_id) + ":"@ + trim_of(api_token))
}

/// Validates the remote backend's setup form and prepares what is stored:
/// the trimmed endpoint and the `Basic` authorization value. Returns
/// `None` exactly when any field is blank after trimming.
pub fn setup_credentials(endpoint: &str, instance_id: &str, api_token: &str) -> (r: Option<
    (String, String),
>)
    ensures
        match r {
            Some(p) => {
                &&& trim_of(endpoint@).len() > 0
                &&& trim_of(instance_id@).len() > 0
                &&& trim_of(api_token@).len() > 0
                &&& p.0@ == trim_of(endpoint@)
                &&& p.1@ == spec_basic_auth(instance_id@, api_token@)
            },
            None => !(trim_of(endpoint@).len() > 0 && trim_of(instance_id@).len() > 0 && trim_of(
                api_token@,
            ).len() > 0),
        },
{
    let endpoint_t = trimmed(endpoint);
    let instance_t = trimmed(instance_id);
    let token_t = trimmed(api_token);
    if endpoint_t.as_str().is_empty() || instance_t.as_str().is_empty()
        || token_t.as_str().is_empty() {
        return None;
    }
    let mut credentials = instance_t;
    credentials.append(":");
    credentials.append(token_t.as_str());
    let encoded = base64_standard(credentials.as_str());
    let mut auth_value = String::from_str("Basic ");
    auth_value.append(encoded.as_str());
    Some((endpoint_t, auth_value))
}

} // verus!
