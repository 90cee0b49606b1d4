//! Who may call the server over HTTP: a bearer token, or a client id and
//! secret sent with basic authentication; and the client-credentials grant
//! that hands out the bearer token.
use vstd::prelude::*;
use vstd::string::*;
use vstd::utf8::{decode_utf8, valid_utf8};

use base64::Engine;

use crate::text::{chars_of, text_eq};

verus! {

/// The bytes that standard base64 (with padding) decodes a text to, or
/// `None` when the text is not valid base64.
pub uninterp spec fn base64_decoded(s: Seq<char>) -> Option<Seq<u8>>;

/// Relies on `base64::engine::general_purpose::STANDARD.decode`: the result
/// depends on the input text alone.
#[verifier::external_body]
fn decode_base64(s: &str) -> (r: Option<Vec<u8>>)
    ensures
        r is Some <==> base64_decoded(s@) is Some,
        r is Some ==> r->0@ == base64_decoded(s@)->0,
{
    base64::engine::general_purpose::STANDARD.decode(s).ok()
}

/// Relies on `String::from_utf8`: it succeeds exactly on valid UTF-8, and the
/// text then holds the characters those bytes encode.
#[verifier::external_body]
fn utf8_text(bytes: Vec<u8>) -> (r: Option<String>)
    ensures
        r is Some <==> valid_utf8(bytes@),
        r is Some ==> r->0@ == decode_utf8(bytes@),
{
    String::from_utf8(bytes).ok()
}

/// `prefix` starts `h`.
pub open spec fn starts_with(h: Seq<char>, prefix: Seq<char>) -> bool {
    h.len() >= prefix.len() && h.take(prefix.len() as int) == prefix
}

/// The header carries the bearer token.
pub open spec fn bearer_ok(h: Seq<char>, token: Seq<char>) -> bool {
    h == "Bearer "@ + token
}

/// Decoded basic credentials split on `:` into exactly the client id and the
/// client secret: one colon, with the id before it and the secret after it.
pub open spec fn credentials_ok(c: Seq<char>, id: Seq<char>, secret: Seq<char>) -> bool {
    &&& !id.contains(':')
    &&& !secret.contains(':')
    &&& c == id + seq![':'] + secret
}

/// The header carries base64 credentials that name the client.
pub open spec fn basic_ok(h: Seq<char>, id: Seq<char>, secret: Seq<char>) -> bool {
    starts_with(h, "Basic "@) && match base64_decoded(h.skip(6)) {
        Some(bytes) => valid_utf8(bytes) && credentials_ok(decode_utf8(bytes), id, secret),
        None => false,
    }
}

/// Whether `c` holds the character `ch`.
fn has_char(c: &Vec<char>, ch: char) -> (r: bool)
    ensures
        r == c@.contains(ch),
{
    let n = c.len();
    for i in 0..n
        invariant
            n == c@.len(),
            forall|k: int| 0 <= k < i ==> c@[k] != ch,
    {
        if c[i] == ch {
            assert(c@[i as int] == ch);
            return true;
        }
    }
    false
}

/// Whether decoded credentials name exactly this client.
pub fn credentials_match(c: &str, id: &str, secret: &str) -> (r: bool)
    ensures
        r == credentials_ok(c@, id@, secret@),
{
    let cc = chars_of(c);
    let mut w = chars_of(id);
    let mut sc = chars_of(secret);
    if has_char(&w, ':') || has_char(&sc, ':') {
        return false;
    }
    w.push(':');
    w.append(&mut sc);
    assert(w@ =~= id@ + seq![':'] + secret@);
    chars_eq(&cc, &w)
}

/// Whether two character sequences are equal.
fn chars_eq(a: &Vec<char>, b: &Vec<char>) -> (r: bool)
    ensures
        r == (a@ == b@),
{
    let n = a.len();
    if n != b.len() {
        return false;
    }
    for i in 0..n
        invariant
            n == a@.len(),
            n == b@.len(),
            forall|k: int| 0 <= k < i ==> a@[k] == b@[k],
    {
        if a[i] != b[i] {
            return false;
        }
    }
    assert(a@ =~= b@);
    true
}

/// Whether an `Authorization` header lets the caller in: either
/// `Bearer <token>` with the server's token, or `Basic <base64>` whose
/// decoded text is `<client id>:<client secret>`.
pub fn authorizes(header: Option<&str>, token: &str, client_id: &str, client_secret: &str) -> (r:
    bool)
    ensures
        r == match header {
            Some(h) => bearer_ok(h@, token@) || basic_ok(h@, client_id@, client_secret@),
            None => false,
        },
{
    proof {
        reveal_strlit("Bearer ");
        reveal_strlit("Basic ");
    }
    let h = match header {
        Some(h) => h,
        None => return false,
    };
    let n = h.unicode_len();
    let mut bearer = false;
    if n >= 7 && text_eq(h.substring_char(0, 7), "Bearer ") {
        bearer = text_eq(h.substring_char(7, n), token);
        assert(h@ =~= h@.take(7) + h@.skip(7));
        assert(bearer ==> h@ =~= "Bearer "@ + token@);
        assert(h@ == "Bearer "@ + token@ ==> h@.skip(7) =~= token@);
    } else {
        assert(h@ == "Bearer "@ + token@ ==> h@.take(7) =~= "Bearer "@);
    }
    if bearer {
        return true;
    }
    if n >= 6 && text_eq(h.substring_char(0, 6), "Basic ") {
        let rest = h.substring_char(6, n);
        assert(rest@ =~= h@.skip(6));
        match decode_base64(rest) {
            Some(bytes) => match utf8_text(bytes) {
                Some(c) => credentials_match(c.as_str(), client_id, client_secret),
                None => false,
            },
            None => false,
        }
    } else {
        false
    }
}

/// Why a token request is refused.
#[derive(Clone, Copy, Debug, PartialEq, Eq, Structural)]
pub enum TokenRefusal {
    /// The grant type is not `client_credentials`.
    UnsupportedGrant,
    /// The client id or secret is wrong.
    BadClient,
}

/// Checks a client-credentials token request: the grant type must be
/// `client_credentials`, then the id and secret must be the server's.
pub fn check_token_request(
    grant_type: &str,
    client_id: &str,
    client_secret: &str,
    expected_id: &str,
    expected_secret: &str,
) -> (r: Result<(), TokenRefusal>)
    ensures
        grant_type@ != "client_credentials"@ ==> r == Err::<(), TokenRefusal>(
            TokenRefusal::UnsupportedGrant,
        ),
        grant_type@ == "client_credentials"@ && (client_id@ != expected_id@ || client_secret@
            != expected_secret@) ==> r == Err::<(), TokenRefusal>(TokenRefusal::BadClient),
        r is Ok <==> grant_type@ == "client_credentials"@ && client_id@ == expected_id@
            && client_secret@ == expected_secret@,
{
    if !text_eq(grant_type, "client_credentials") {
        return Err(TokenRefusal::UnsupportedGrant);
    }
    if !text_eq(client_id, expected_id) || !text_eq(client_secret, expected_secret) {
        return Err(TokenRefusal::BadClient);
    }
    Ok(())
}

} // verus!
