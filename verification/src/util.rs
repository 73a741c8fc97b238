//! Small utilities over outside parsers.

use vstd::prelude::*;

verus! {

/// The serialization of the URL that `s` parses to.
pub uninterp spec fn normalized_url(s: Seq<char>) -> Seq<char>;

/// Relies on `url::Url::parse` and the serialization of `url::Url`:
/// parsing either rejects `s` or yields a URL whose serialized form is a
/// function of `s` alone.  On rejection the parser's error description is
/// handed back.
#[verifier::external_body]
pub fn url_decode(url: &str) -> (r: Result<String, String>)
    ensures
        r matches Ok(s) ==> s@ == normalized_url(url@),
{
    match url::Url::parse(url) {
        Ok(value) => Ok(value.to_string()),
        Err(e) => Err(e.to_string()),
    }
}

/// Relies on `ed25519_dalek::Keypair::from_bytes`: it accepts exactly 64
/// bytes — the secret key followed by the public key — fails on any other
/// length and on a public half that is no curve point, and keeps the
/// public key's bytes as handed in.  Success therefore returns the last
/// 32 input bytes.
#[verifier::external_body]
pub fn get_public_key_from_bytes(key_bytes: &[u8]) -> (r: Result<[u8; 32], String>)
    ensures
        r matches Ok(pk) ==> key_bytes@.len() == 64 && pk@ == key_bytes@.subrange(32, 64),
        key_bytes@.len() != 64 ==> r is Err,
{
    match ed25519_dalek::Keypair::from_bytes(key_bytes) {
        Ok(keypair) => Ok(keypair.public.to_bytes()),
        Err(e) => Err(e.to_string()),
    }
}

} // verus!
