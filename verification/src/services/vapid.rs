//! VAPID keys and the preparation of Web Push requests: the decisions of a
//! push (skip, refuse, send) around the `web-push-native` crate, which
//! encrypts the payload and signs the request.
use vstd::prelude::*;
use crate::encoding::{decode_url_b64, url_b64_bytes, base64_text};

verus! {

/// The VAPID key pair pushes are signed with.
#[verifier::external_type_specification]
#[verifier::external_body]
pub struct ExKeyPair(web_push_native::jwt_simple::algorithms::ES256KeyPair);

/// A push endpoint as a parsed URI.
#[verifier::external_type_specification]
#[verifier::external_body]
pub struct ExUri(http::Uri);

/// The uncompressed P-256 public key (65 bytes) of a 32-byte VAPID private
/// key, or `None` when the bytes are no valid private key.
pub uninterp spec fn vapid_public_of(raw: Seq<u8>) -> Option<Seq<u8>>;

/// `jwt_simple`'s `ES256KeyPair::from_bytes` on a 32-byte scalar, with the
/// key pair's public key in uncompressed SEC1 form
/// (`key_pair().public_key().to_bytes_uncompressed()`): the pair and its
/// public key, or `None` when the scalar is rejected. The result depends on
/// the bytes alone; the curve arithmetic is not restated. Other lengths make
/// the crate panic, so they are excluded.
#[verifier::external_body]
fn vapid_key_from_bytes(raw: &[u8]) -> (r: Option<(web_push_native::jwt_simple::algorithms::ES256KeyPair, Vec<u8>)>)
    requires
        raw@.len() == 32,
    ensures
        match r {
            Some(p) => vapid_public_of(raw@) == Some(p.1@) && p.1@.len() == 65,
            None => vapid_public_of(raw@) is None,
        },
{
    let kp = web_push_native::jwt_simple::algorithms::ES256KeyPair::from_bytes(raw).ok()?;
    let public = <web_push_native::jwt_simple::algorithms::ES256KeyPair as web_push_native::jwt_simple::algorithms::ECDSAP256KeyPairLike>::key_pair(&kp)
        .public_key()
        .to_bytes_uncompressed();
    Some((kp, public))
}

/// `base64::engine::general_purpose::URL_SAFE_NO_PAD.encode`: the unpadded
/// Base64 text of `data` in the URL-safe alphabet.
#[verifier::external_body]
fn base64_url_nopad_encode(data: &[u8]) -> (r: String)
    ensures
        r@ == base64_text(true, false, data@),
{
    <base64::engine::GeneralPurpose as base64::Engine>::encode(&base64::engine::general_purpose::URL_SAFE_NO_PAD, data)
}

/// The VAPID public key a private key in URL-safe Base64 gives, as URL-safe
/// Base64 without padding; `None` when the text or the key is invalid.
pub open spec fn vapid_public_text(private_b64: Seq<char>) -> Option<Seq<char>> {
    match url_b64_bytes(private_b64) {
        Some(raw) => match vapid_public_of(raw) {
            Some(p) => Some(base64_text(true, false, p)),
            None => None,
        },
        None => None,
    }
}

/// Reads the VAPID private key the server is configured with: the key pair
/// and the public key browsers subscribe with. A key that decodes to other
/// than 32 bytes makes the key crate panic, so it is excluded.
pub fn parse_vapid_key(private_b64: &str) -> (r: Option<(web_push_native::jwt_simple::algorithms::ES256KeyPair, String)>)
    requires
        url_b64_bytes(private_b64@) matches Some(raw) ==> raw.len() == 32,
    ensures
        match r {
            Some(p) => vapid_public_text(private_b64@) == Some(p.1@),
            None => vapid_public_text(private_b64@) is None,
        },
{
    let raw = match decode_url_b64(private_b64) {
        Ok(b) => b,
        Err(_) => return None,
    };
    let (kp, public) = match vapid_key_from_bytes(raw.as_slice()) {
        Some(p) => p,
        None => return None,
    };
    let text = base64_url_nopad_encode(public.as_slice());
    Some((kp, text))
}

/// The text of a URI that `http` accepts, as it writes it back, or `None`
/// when it rejects the text.
pub uninterp spec fn endpoint_uri_text(s: Seq<char>) -> Option<Seq<char>>;

/// `<http::Uri as FromStr>::from_str`, with the URI written back by its
/// `Display`: the parsed endpoint and its text, or `None` when `http` rejects
/// the text. The grammar is not restated here.
#[verifier::external_body]
fn parse_endpoint(s: &str) -> (r: Option<(http::Uri, String)>)
    ensures
        match r {
            Some(p) => endpoint_uri_text(s@) == Some(p.1@),
            None => endpoint_uri_text(s@) is None,
        },
{
    let uri: http::Uri = s.parse().ok()?;
    let text = uri.to_string();
    Some((uri, text))
}

/// A push request in plain values: method, URI, headers (lowercase names)
/// and the encrypted body.
#[derive(Clone, Debug)]
pub struct PushRequest {
    pub method: String,
    pub uri: String,
    pub headers: Vec<(String, String)>,
    pub body: Vec<u8>,
}

/// The request has a header of that name and value.
pub open spec fn has_header(r: PushRequest, name: Seq<char>, value: Seq<char>) -> bool {
    exists|i: int| 0 <= i < r.headers@.len() && (#[trigger] r.headers@[i]).0@ == name && r.headers@[i].1@ == value
}

/// The request has a header of that name.
pub open spec fn has_header_named(r: PushRequest, name: Seq<char>) -> bool {
    exists|i: int| 0 <= i < r.headers@.len() && (#[trigger] r.headers@[i]).0@ == name
}

/// The bytes are a P-256 public key in SEC1 form that `p256` accepts.
pub uninterp spec fn sec1_key_valid(bytes: Seq<u8>) -> bool;

/// Why building a push request failed.
#[derive(Clone, Copy, Debug, PartialEq, Eq, Structural)]
pub enum PushBuildError {
    /// The browser's public key is no valid P-256 point.
    BadKey,
    /// Encryption or signing failed.
    Build,
}

/// `p256::PublicKey::from_sec1_bytes` on the browser's key, then
/// `WebPushBuilder::new(endpoint, key, auth).with_vapid(key_pair, contact)
/// .build(payload)`, with the request taken apart into plain values. The
/// payload is encrypted (aes128gcm, one record) with a fresh random salt and
/// key, and the VAPID token carries the current time, so the body and the
/// authorization are not determined by the arguments; what holds of every
/// request is stated: a POST to the endpoint, with a 12-hour TTL, the content
/// headers, an authorization, and a body 103 bytes longer than the payload
/// (an 86-byte header and the 17 bytes the record adds). The request's URI is
/// the parsed endpoint, whose text is not restated here. A secret of other
/// than 16 bytes makes the crate panic, so it is excluded.
#[verifier::external_body]
fn build_web_push(
    endpoint: &http::Uri,
    p256dh: &[u8],
    auth: &[u8],
    key_pair: &web_push_native::jwt_simple::algorithms::ES256KeyPair,
    contact: &str,
    payload: &[u8],
) -> (r: Result<PushRequest, PushBuildError>)
    requires
        auth@.len() == 16,
    ensures
        (r matches Err(e) && e == PushBuildError::BadKey) <==> !sec1_key_valid(p256dh@),
        r matches Ok(req) ==> req.method@ == "POST"@,
        r matches Ok(req) ==> has_header(req, "ttl"@, "43200"@),
        r matches Ok(req) ==> has_header(req, "content-encoding"@, "aes128gcm"@),
        r matches Ok(req) ==> has_header(req, "content-type"@, "application/octet-stream"@),
        r matches Ok(req) ==> has_header_named(req, "authorization"@),
        r matches Ok(req) ==> req.body@.len() == payload@.len() + 103,
{
    let key = web_push_native::p256::PublicKey::from_sec1_bytes(p256dh).map_err(|_| PushBuildError::BadKey)?;
    let request = web_push_native::WebPushBuilder::new(endpoint.clone(), key, web_push_native::Auth::clone_from_slice(auth))
        .with_vapid(key_pair, contact)
        .build(payload)
        .map_err(|_| PushBuildError::Build)?;
    let (parts, body) = request.into_parts();
    let headers = parts.headers.iter().map(|(k, v)| (k.as_str().to_string(), v.to_str().unwrap_or("").to_string())).collect();
    Ok(PushRequest { method: parts.method.to_string(), uri: parts.uri.to_string(), headers, body })
}

/// Why a push is not sent.
#[derive(Clone, Copy, Debug, PartialEq, Eq, Structural)]
pub enum PushPrepError {
    /// The endpoint is no URI.
    InvalidEndpoint,
    /// A key of the subscription is not URL-safe Base64.
    InvalidBase64,
    /// The auth secret is not 16 bytes long.
    AuthLength(usize),
    /// The browser's public key is no valid P-256 point.
    InvalidP256dh,
    /// Encrypting or signing failed.
    BuildFailed,
}

/// What a push to one subscription comes to before it is sent.
#[derive(Clone, Debug)]
pub enum PushPlan {
    /// Push is not configured: nothing is sent.
    Skip,
    /// The request to send.
    Ready(PushRequest),
    /// The subscription cannot be pushed to.
    Failed(PushPrepError),
}

/// The plan of a push, from the configured key pair (if any), the
/// subscription's endpoint and keys, the contact and the payload.
pub open spec fn push_plan_ok(
    configured: bool,
    endpoint: Seq<char>,
    p256dh: Seq<char>,
    auth: Seq<char>,
    payload: Seq<u8>,
    r: PushPlan,
) -> bool {
    if !configured {
        r is Skip
    } else if endpoint_uri_text(endpoint) is None {
        r matches PushPlan::Failed(PushPrepError::InvalidEndpoint)
    } else if url_b64_bytes(p256dh) is None || url_b64_bytes(auth) is None {
        r matches PushPlan::Failed(PushPrepError::InvalidBase64)
    } else if url_b64_bytes(auth).unwrap().len() != 16 {
        r matches PushPlan::Failed(PushPrepError::AuthLength(n)) && n == url_b64_bytes(auth).unwrap().len()
    } else if !sec1_key_valid(url_b64_bytes(p256dh).unwrap()) {
        r matches PushPlan::Failed(PushPrepError::InvalidP256dh)
    } else {
        match r {
            PushPlan::Ready(req) => {
                &&& req.method@ == "POST"@
                &&& has_header(req, "content-encoding"@, "aes128gcm"@)
                &&& has_header_named(req, "authorization"@)
                &&& req.body@.len() == payload.len() + 103
            },
            PushPlan::Failed(e) => e == PushPrepError::BuildFailed,
            PushPlan::Skip => false,
        }
    }
}

/// Prepares the push of `payload` to one subscription: nothing without a key
/// pair; a refusal for an endpoint that is no URI, keys that are not Base64,
/// a secret not 16 bytes long, or a public key that is no P-256 point; else
/// the encrypted, signed request.
pub fn prepare_push(
    key_pair: Option<&web_push_native::jwt_simple::algorithms::ES256KeyPair>,
    endpoint: &str,
    p256dh: &str,
    auth: &str,
    contact: &str,
    payload: &str,
) -> (r: PushPlan)
    ensures
        push_plan_ok(key_pair is Some, endpoint@, p256dh@, auth@, vstd::utf8::encode_utf8(payload@), r),
{
    let kp = match key_pair {
        Some(k) => k,
        None => return PushPlan::Skip,
    };
    let (uri, _text) = match parse_endpoint(endpoint) {
        Some(p) => p,
        None => return PushPlan::Failed(PushPrepError::InvalidEndpoint),
    };
    let key = match decode_url_b64(p256dh) {
        Ok(k) => k,
        Err(_) => return PushPlan::Failed(PushPrepError::InvalidBase64),
    };
    let secret = match decode_url_b64(auth) {
        Ok(a) => a,
        Err(_) => return PushPlan::Failed(PushPrepError::InvalidBase64),
    };
    if secret.len() != 16 {
        return PushPlan::Failed(PushPrepError::AuthLength(secret.len()));
    }
    match build_web_push(&uri, key.as_slice(), secret.as_slice(), kp, contact, payload.as_bytes()) {
        Ok(req) => PushPlan::Ready(req),
        Err(PushBuildError::BadKey) => PushPlan::Failed(PushPrepError::InvalidP256dh),
        Err(PushBuildError::Build) => PushPlan::Failed(PushPrepError::BuildFailed),
    }
}

} // verus!
