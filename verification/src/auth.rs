//! API-key authentication: hashing a presented key and deciding, from the
//! store's answer, which business the request acts for. Reading the header
//! and querying the store are the embedding program's job; the hash and the
//! decision are made here.

use vstd::prelude::*;
use vstd::utf8::encode_utf8;

use hmac::{Hmac, Mac};
use sha2::Sha256;

use crate::error::ApiError;
use crate::text::{trim, trimmed};

verus! {

/// What the store knows of an active API key.
#[derive(Clone, Copy, Debug)]
pub struct ApiKeyLookup {
    pub id: u128,
    pub business_id: u128,
}

/// The identity a request acts under once its key is accepted.
#[derive(Clone, Copy, Debug)]
pub struct BusinessContext {
    pub business_id: u128,
    pub api_key_id: u128,
}

/// The HMAC-SHA-256 of a message under a key: a function of the two alone.
pub uninterp spec fn hmac_sha256_of(key: Seq<u8>, msg: Seq<u8>) -> Seq<u8>;

/// The character for a value below sixteen, as lowercase hexadecimal.
pub open spec fn spec_hex_digit(n: u8) -> char {
    if n < 10 {
        (48 + n) as char
    } else {
        (87 + n) as char
    }
}

/// Lowercase hexadecimal of a byte string: two digits per byte, high part
/// first.
pub open spec fn spec_hex_of(b: Seq<u8>) -> Seq<char>
    decreases b.len(),
{
    if b.len() == 0 {
        Seq::empty()
    } else {
        seq![spec_hex_digit(b[0] / 16), spec_hex_digit(b[0] % 16)] + spec_hex_of(b.drop_first())
    }
}

/// Relies on hmac's `Hmac<Sha256>` (`new_from_slice`, `update`, `finalize`):
/// the tag is 32 bytes and depends on the key and message alone;
/// `new_from_slice` accepts keys of any length.
#[verifier::external_body]
fn hmac_sha256(key: &[u8], msg: &[u8]) -> (r: Vec<u8>)
    ensures
        r@ == hmac_sha256_of(key@, msg@),
        r@.len() == 32,
{
    let mut mac = <Hmac<Sha256> as hmac::KeyInit>::new_from_slice(key)
        .expect("HMAC accepts keys of any length");
    mac.update(msg);
    mac.finalize().into_bytes().to_vec()
}

/// Relies on hex::encode: two lowercase digits per byte, high part first.
#[verifier::external_body]
fn hex_encode(b: &[u8]) -> (r: String)
    ensures
        r@ == spec_hex_of(b@),
{
    hex::encode(b)
}

/// The lowercase hexadecimal HMAC-SHA-256 tag of `msg` under `secret`: how
/// presented API keys are hashed before the store is asked about them.
pub fn hmac_sha256_hex(secret: &str, msg: &str) -> (r: String)
    ensures
        r@ == spec_hex_of(hmac_sha256_of(encode_utf8(secret@), encode_utf8(msg@))),
        r@.len() == 64,
{
    let mac = hmac_sha256(secret.as_bytes(), msg.as_bytes());
    let ghost tag = mac@;
    let out = hex_encode(mac.as_slice());
    proof {
        lemma_hex_len(tag);
    }
    out
}

proof fn lemma_hex_len(b: Seq<u8>)
    ensures
        spec_hex_of(b).len() == 2 * b.len(),
    decreases b.len(),
{
    if b.len() > 0 {
        lemma_hex_len(b.drop_first());
    }
}

/// The key a request presents: the header value with surrounding whitespace
/// removed, if anything remains.
pub fn normalize_api_key(value: &str) -> (r: Option<&str>)
    ensures
        r is Some <==> trimmed(value@).len() > 0,
        r matches Some(k) ==> k@ == trimmed(value@),
{
    let t = trim(value);
    if t.is_empty() {
        None
    } else {
        Some(t)
    }
}

/// Turns the store's answer about a key hash into the request's identity:
/// a known active key names the business; anything else is refused.
pub fn authenticate(lookup: Option<ApiKeyLookup>) -> (r: Result<BusinessContext, ApiError>)
    ensures
        lookup matches Some(k) ==> (r matches Ok(ctx) && ctx.business_id == k.business_id
            && ctx.api_key_id == k.id),
        lookup is None ==> r matches Err(ApiError::Unauthorized),
{
    match lookup {
        Some(k) => Ok(BusinessContext { business_id: k.business_id, api_key_id: k.id }),
        None => Err(ApiError::Unauthorized),
    }
}

} // verus!
