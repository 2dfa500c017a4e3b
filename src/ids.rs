use vstd::prelude::*;
use base64::Engine;
use rand::Rng;

verus! {

/// Relies on uuid::Uuid::new_v4: a random version-4 identifier in its
/// hyphenated text form. Nothing is promised of its value.
#[verifier::external_body]
pub(crate) fn new_record_id() -> (r: String) {
    uuid::Uuid::new_v4().to_string()
}

/// Relies on rand's thread-local generator (`rand::rng().random()`): 32
/// random bytes, of which nothing is promised.
#[verifier::external_body]
fn random_bytes() -> (r: [u8; 32]) {
    rand::rng().random()
}

/// The URL-safe base64 text of `b`, without padding.
pub uninterp spec fn base64_url_unpadded(b: Seq<u8>) -> Seq<char>;

/// Relies on base64's `BASE64_URL_SAFE_NO_PAD` engine: the URL-safe
/// alphabet, no `=` padding, so four characters per three bytes rounded up;
/// the text depends on the bytes alone.
#[verifier::external_body]
fn encode_base64_url(b: &[u8]) -> (r: String)
    ensures
        r@ == base64_url_unpadded(b@),
        r@.len() == (4 * b@.len() + 2) / 3,
{
    base64::prelude::BASE64_URL_SAFE_NO_PAD.encode(b)
}

/// A fresh anti-forgery token: 32 random bytes in URL-safe base64.
pub fn generate_csrf_token() -> (r: String)
    ensures
        exists|b: Seq<u8>| b.len() == 32 && r@ == base64_url_unpadded(b),
        r@.len() == 43,
{
    let bytes = random_bytes();
    let r = encode_base64_url(bytes.as_slice());
    assert(bytes@.len() == 32);
    r
}

} // verus!
