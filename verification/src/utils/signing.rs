use hmac::{Hmac, Mac};
use sha2::Sha256;
use vstd::prelude::*;

verus! {

/// The HMAC-SHA256 tag of a message under a key.
pub uninterp spec fn hmac_sha256(key: Seq<u8>, message: Seq<u8>) -> Seq<u8>;

/// Computes a tag with the `hmac` crate: `Hmac::<Sha256>::new_from_slice`,
/// which takes a key of any length, then `update` and `finalize`.
#[verifier::external_body]
pub(crate) fn compute_tag(key: &[u8], message: &[u8]) -> (tag: Vec<u8>)
    ensures
        tag@ == hmac_sha256(key@, message@),
{
    let mut mac = Hmac::<Sha256>::new_from_slice(key).expect("a key of any length is taken");
    mac.update(message);
    mac.finalize().into_bytes().to_vec()
}

/// Checks a tag with the `hmac` crate's `verify_slice`, which compares the
/// whole tag in constant time and refuses one of another length.
#[verifier::external_body]
pub(crate) fn tag_is_genuine(key: &[u8], message: &[u8], tag: &[u8]) -> (genuine: bool)
    ensures
        genuine == (tag@ == hmac_sha256(key@, message@)),
{
    let mut mac = Hmac::<Sha256>::new_from_slice(key).expect("a key of any length is taken");
    mac.update(message);
    mac.verify_slice(tag).is_ok()
}

} // verus!
