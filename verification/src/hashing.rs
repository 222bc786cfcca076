//! Content hashing: SHA-256 digests rendered in standard Base64.

use vstd::prelude::*;
use vstd::utf8::*;
use sha2::Digest;
use crate::base64::{
    base64_standard, base64_standard_decode, lemma_base64_alphabet, lemma_base64_len,
    lemma_base64_padded_end, lemma_base64_standard_roundtrip, standard_char,
};
use base64::Engine;

verus! {

/// What `sha2::Sha256::digest` returns for the given bytes.
pub uninterp spec fn sha256_digest(data: Seq<u8>) -> Seq<u8>;

/// Calls `sha2::Sha256::digest`. Trusted: the result is the named digest of
/// the input, and it is 32 bytes long, as SHA-256's output size is.
#[verifier::external_body]
fn sha256(data: &[u8]) -> (digest: Vec<u8>)
    ensures
        digest@ == sha256_digest(data@),
        digest@.len() == 32,
{
    sha2::Sha256::digest(data).to_vec()
}

/// Calls `BASE64_STANDARD.encode`. Trusted: the result is the standard
/// padded Base64 of the input, as RFC 4648 defines it.
#[verifier::external_body]
fn encode_base64_standard(data: &[u8]) -> (text: String)
    ensures
        text@ == base64_standard(data@),
{
    base64::prelude::BASE64_STANDARD.encode(data)
}

/// The cache key of a text: the standard Base64 rendering of the SHA-256
/// digest of its UTF-8 bytes.
pub open spec fn content_hash(content: Seq<char>) -> Seq<char> {
    base64_standard(sha256_digest(encode_utf8(content)))
}

/// Hashes `content` into the key under which the cache files it: 44
/// characters of standard Base64 ending in `=`, which decode to the SHA-256
/// digest of the content.
pub fn compute_hash(content: &str) -> (hash: String)
    ensures
        hash@ == content_hash(content@),
        hash@.len() == 44,
        hash@.last() == '=',
        forall|i: int| 0 <= i < hash@.len() ==> standard_char(#[trigger] hash@[i]) || hash@[i]
            == '=',
        base64_standard_decode(hash@) == sha256_digest(encode_utf8(content@)),
{
    let digest = sha256(content.as_bytes());
    proof {
        lemma_base64_len(digest@, false, true);
        lemma_base64_padded_end(digest@, false);
        lemma_base64_alphabet(digest@, false, true);
        lemma_base64_standard_roundtrip(digest@);
    }
    encode_base64_standard(digest.as_slice())
}

} // verus!
