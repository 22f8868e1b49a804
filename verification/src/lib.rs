//! Core helpers of a gateway in front of a message broker's management HTTP
//! API: URL construction, Basic-Auth header injection, request framing, and
//! reshaping of broker responses into small client-facing DTOs.
//!
//! The functions here are pure: the HTTP transport itself (and the JSON
//! (de)serialization of broker payloads) lives outside the library, which is
//! handed the outcome as plain values.

use vstd::prelude::*;
use vstd::string::StringExecFns;
use vstd::string::StringSliceAdditionalSpecFns;
use vstd::string::StrSliceExecFns;
use vstd::utf8::encode_utf8;

pub mod config;
pub mod exceptions;
pub mod rabbitmq;
pub mod routes;
pub mod text;

verus! {

/// Joins a root URI and a path with a single separating slash.
///
/// No escaping or normalization is performed; the caller must hand in a
/// well-formed path. The result is always `Ok`.
pub fn prepare_url(root_uri: &str, path: &str) -> (r: Result<String, ()>)
    ensures
        r is Ok,
        r->Ok_0@ == root_uri@ + "/"@ + path@,
{
    let mut url = String::from_str(root_uri);
    url.append("/");
    url.append(path);
    Ok(url)
}

/// What the standard-alphabet, padded Base64 encoding of a byte sequence
/// looks like, left abstract: the library never states the alphabet itself,
/// only that encoding is a function of the bytes alone and that decoding
/// inverts it.
pub uninterp spec fn base64_of(bytes: Seq<u8>) -> Seq<char>;

/// Relies on base64's `Engine::encode` with the standard engine: the encoding
/// is deterministic, a function of the input bytes alone.
#[verifier::external_body]
fn base64_encode(bytes: &[u8]) -> (r: String)
    ensures
        r@ == base64_of(bytes@),
{
    base64::Engine::encode(&base64::engine::general_purpose::STANDARD, bytes)
}

/// Relies on base64's `Engine::decode` with the standard engine: decoding
/// inverts `Engine::encode` (RFC 4648), so on the encoding of any byte
/// sequence it succeeds and returns exactly those bytes.
#[verifier::external_body]
fn base64_decode(text: &str) -> (r: Result<Vec<u8>, ()>)
    ensures
        forall|b: Seq<u8>| text@ == base64_of(b) ==> r is Ok && r->Ok_0@ == b,
{
    match base64::Engine::decode(&base64::engine::general_purpose::STANDARD, text) {
        Ok(v) => Ok(v),
        Err(_) => Err(()),
    }
}

/// The name of the header that carries the credentials.
pub open spec fn authorization_header_name() -> Seq<char> {
    "Authorization"@
}

/// The scheme prefix of the header value.
pub open spec fn basic_prefix() -> Seq<char> {
    "Basic "@
}

/// The credential string that is Base64-encoded into the header value.
pub open spec fn auth_credentials(username: Seq<char>, password: Seq<char>) -> Seq<char> {
    username + ":"@ + password
}

/// The full value of the `Authorization` header for the given credentials.
pub open spec fn auth_header_value(username: Seq<char>, password: Seq<char>) -> Seq<char> {
    basic_prefix() + base64_of(encode_utf8(auth_credentials(username, password)))
}

/// Builds the value of the `Authorization` header: `Basic ` followed by the
/// Base64 encoding of `username:password`.
pub fn authorization_header_value(username: &str, password: &str) -> (r: String)
    ensures
        r@ == auth_header_value(username@, password@),
{
    let mut credentials = String::from_str(username);
    credentials.append(":");
    credentials.append(password);
    proof {
        assert(credentials@ == auth_credentials(username@, password@));
    }
    let encoded = base64_encode(credentials.as_str().as_bytes());
    let mut value = String::from_str("Basic ");
    value.append(encoded.as_str());
    value
}

/// Builds the headers attached to every outbound management-API request: a
/// single `Authorization` header with the Base64-encoded credentials.
pub fn prepare_authorization_headers(username: &str, password: &str) -> (r: Vec<(String, String)>)
    ensures
        r@.len() == 1,
        r@[0].0@ == authorization_header_name(),
        r@[0].1@ == auth_header_value(username@, password@),
{
    let value = authorization_header_value(username, password);
    let mut headers: Vec<(String, String)> = Vec::new();
    headers.push((String::from_str("Authorization"), value));
    headers
}

/// Decoding the Base64 payload of the `Authorization` header recovers exactly
/// the bytes of `username:password`, for every pair of credentials: this
/// function strips the `Basic ` prefix from a freshly built header value,
/// decodes the rest, and is proved to return those bytes.
pub fn decoded_credentials(username: &str, password: &str) -> (r: Vec<u8>)
    ensures
        r@ == encode_utf8(auth_credentials(username@, password@)),
{
    let value = authorization_header_value(username, password);
    let ghost payload_bytes = encode_utf8(auth_credentials(username@, password@));
    proof {
        reveal_strlit("Basic ");
        assert(basic_prefix().len() == 6);
    }
    let len = value.as_str().unicode_len();
    let payload = value.as_str().substring_char(6, len);
    proof {
        assert(payload@ =~= base64_of(payload_bytes));
    }
    match base64_decode(payload) {
        Ok(decoded) => decoded,
        Err(_) => {
            proof {
                assert(false);
            }
            Vec::new()
        },
    }
}

} // verus!
