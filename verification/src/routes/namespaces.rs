//! Namespaces: registering one hands out a token from which its public key
//! is derived again.

use vstd::prelude::*;
use base64::Engine;
use rand::RngCore;
use crate::base64::{base64_url_nopad, lemma_base64_alphabet, lemma_base64_len, url_safe_char};
use crate::text::texts;

verus! {

/// What `URL_SAFE_NO_PAD.decode` of the `base64` crate returns for the text
/// (`None` for a refusal).
pub uninterp spec fn base64_url_nopad_decode(text: Seq<char>) -> Option<Seq<u8>>;

/// The Ed25519 public key (`ed25519_dalek::PublicKey::from`) of the secret
/// key with the given 32 bytes.
pub uninterp spec fn ed25519_public_key(seed: Seq<u8>) -> Seq<u8>;

/// The bytes of an optional byte vector.
pub open spec fn opt_bytes(bytes: Option<Vec<u8>>) -> Option<Seq<u8>> {
    match bytes {
        Some(b) => Some(b@),
        None => None,
    }
}

/// Fills 32 bytes from `rand::rngs::OsRng` (`RngCore::try_fill_bytes`).
/// Trusted: the seed, when the operating system's generator gives one, has
/// 32 bytes; nothing else is claimed of it.
#[verifier::external_body]
fn random_seed() -> (seed: Option<Vec<u8>>)
    ensures
        seed matches Some(s) ==> s@.len() == 32,
{
    let mut seed = [0u8; 32];
    match rand::rngs::OsRng.try_fill_bytes(&mut seed) {
        Ok(()) => Some(seed.to_vec()),
        Err(_) => None,
    }
}

/// Calls `ed25519_dalek::PublicKey::from` on the secret key made of the 32
/// bytes. Trusted: the result is the named key, 32 bytes long.
#[verifier::external_body]
fn derive_public_key(seed: &[u8]) -> (public_key: Vec<u8>)
    requires
        seed@.len() == 32,
    ensures
        public_key@ == ed25519_public_key(seed@),
        public_key@.len() == 32,
{
    let secret = ed25519_dalek::SecretKey::from_bytes(seed).unwrap();
    ed25519_dalek::PublicKey::from(&secret).as_bytes().to_vec()
}

/// Calls `URL_SAFE_NO_PAD.encode`. Trusted: the result is the URL-safe
/// Base64 of the input without padding, as RFC 4648 defines it.
#[verifier::external_body]
fn encode_url_nopad(data: &[u8]) -> (text: String)
    ensures
        text@ == base64_url_nopad(data@),
{
    base64::engine::general_purpose::URL_SAFE_NO_PAD.encode(data)
}

/// Calls `URL_SAFE_NO_PAD.decode`. Trusted: the result is the named decoding,
/// and the encoding of any bytes decodes to those bytes (the engine writes
/// no padding and no trailing bits, which is what it requires to decode).
#[verifier::external_body]
fn decode_url_nopad(text: &str) -> (data: Option<Vec<u8>>)
    ensures
        opt_bytes(data) == base64_url_nopad_decode(text@),
        forall|bytes: Seq<u8>| #[trigger] base64_url_nopad(bytes) == text@ ==> opt_bytes(data)
            == Some(bytes),
{
    match base64::engine::general_purpose::URL_SAFE_NO_PAD.decode(text) {
        Ok(bytes) => Some(bytes),
        Err(_) => None,
    }
}

/// The store key of a namespace's public key.
pub open spec fn namespace_key_text(namespace: Seq<char>) -> Seq<char> {
    "namespace."@ + namespace + ".public_key"@
}

/// The store key under which the public key of `namespace` is kept.
pub fn namespace_key(namespace: &str) -> (key: String)
    ensures
        key@ == namespace_key_text(namespace@),
{
    let key = String::from_str("namespace.");
    let key = key.concat(namespace);
    key.concat(".public_key")
}

/// The `namespace` member of the request body: missing (or the body is no
/// object), a string, or another JSON value.
pub enum NamespaceField {
    Missing,
    Text(String),
    Other,
}

/// The answer to a namespace registration.
pub struct NamespaceReply {
    pub success: bool,
    pub token: Option<String>,
    pub errors: Vec<String>,
}

/// The first step of a registration: answered already, or the store must
/// say whether the key is taken.
pub enum NamespaceStep {
    Reply(NamespaceReply),
    Lookup { namespace: String, key: String },
}

/// The message for a request without a namespace.
pub open spec fn namespace_required_message() -> Seq<char> {
    "Namespace is required"@
}

/// The message for a namespace that is taken.
pub open spec fn namespace_taken_message(namespace: Seq<char>) -> Seq<char> {
    "Namespace "@ + namespace + " already exists"@
}

/// Starts a registration: a missing namespace is refused, a namespace that
/// is no string is answered with success and no token, and a string goes
/// on to the store's check.
pub fn add_namespace_request(field: &NamespaceField) -> (step: NamespaceStep)
    ensures
        field is Missing ==> (step matches NamespaceStep::Reply(reply) && !reply.success
            && reply.token is None && texts(reply.errors@) == seq![namespace_required_message()]),
        field is Other ==> (step matches NamespaceStep::Reply(reply) && reply.success
            && reply.token is None && reply.errors@.len() == 0),
        field matches NamespaceField::Text(ns) ==> (step matches NamespaceStep::Lookup {
            namespace,
            key,
        } && namespace@ == ns@ && key@ == namespace_key_text(ns@)),
{
    match field {
        NamespaceField::Missing => {
            let mut errors: Vec<String> = Vec::new();
            errors.push(String::from_str("Namespace is required"));
            assert(texts(errors@) =~= seq![namespace_required_message()]);
            NamespaceStep::Reply(NamespaceReply { success: false, token: None, errors })
        },
        NamespaceField::Other => NamespaceStep::Reply(
            NamespaceReply { success: true, token: None, errors: Vec::new() },
        ),
        NamespaceField::Text(ns) => NamespaceStep::Lookup {
            namespace: ns.clone(),
            key: namespace_key(ns.as_str()),
        },
    }
}

/// A new namespace: the store key, the public key to keep under it, and the
/// token handed to the owner.
pub struct NamespaceRegistration {
    pub key: String,
    pub public_key: Vec<u8>,
    pub token: String,
}

/// The outcome of a registration once the store has answered: refused,
/// registered, or stopped because the system's random generator failed.
pub enum NamespaceDecision {
    Refuse(NamespaceReply),
    Register(NamespaceRegistration),
    NoRandomness,
}

/// The registration that a drawn seed gives: its public key to keep and,
/// encoded, the token (43 URL-safe characters); without a seed, nothing is
/// registered.
pub fn registration_from_seed(namespace: &str, seed: Option<Vec<u8>>) -> (decision:
    NamespaceDecision)
    requires
        seed matches Some(s) ==> s@.len() == 32,
    ensures
        seed is None <==> decision is NoRandomness,
        seed matches Some(s) ==> (decision matches NamespaceDecision::Register(registration)
            && registration.key@ == namespace_key_text(namespace@) && registration.public_key@
            == ed25519_public_key(s@) && registration.token@ == base64_url_nopad(s@)
            && registration.token@.len() == 43 && (forall|i: int|
            0 <= i < registration.token@.len() ==> url_safe_char(
                #[trigger] registration.token@[i],
            ))),
{
    let seed = match seed {
        Some(seed) => seed,
        None => return NamespaceDecision::NoRandomness,
    };
    let public_key = derive_public_key(seed.as_slice());
    let token = encode_url_nopad(seed.as_slice());
    proof {
        lemma_base64_len(seed@, true, false);
        lemma_base64_alphabet(seed@, true, false);
    }
    let key = namespace_key(namespace);
    NamespaceDecision::Register(NamespaceRegistration { key, public_key, token })
}

/// Decides a registration: a taken namespace is refused; otherwise a fresh
/// random 32-byte seed gives the public key to keep and, encoded, the token
/// (43 URL-safe characters); when the system gives no random seed, nothing
/// is registered.
pub fn decide_namespace(namespace: &str, already_registered: bool) -> (decision: NamespaceDecision)
    ensures
        already_registered ==> (decision matches NamespaceDecision::Refuse(reply) && !reply.success
            && reply.token is None && texts(reply.errors@) == seq![
            namespace_taken_message(namespace@),
        ]),
        !already_registered ==> (decision is NoRandomness || (decision matches NamespaceDecision::Register(registration)
            && registration.key@ == namespace_key_text(namespace@) && registration.token@.len()
            == 43 && (forall|i: int|
            0 <= i < registration.token@.len() ==> url_safe_char(#[trigger] registration.token@[i]))
            && exists|seed: Seq<u8>|
            seed.len() == 32 && registration.public_key@ == ed25519_public_key(seed)
                && registration.token@ == base64_url_nopad(seed))),
{
    if already_registered {
        let message = String::from_str("Namespace ");
        let message = message.concat(namespace);
        let message = message.concat(" already exists");
        let mut errors: Vec<String> = Vec::new();
        errors.push(message);
        assert(texts(errors@) =~= seq![namespace_taken_message(namespace@)]);
        NamespaceDecision::Refuse(NamespaceReply { success: false, token: None, errors })
    } else {
        let seed = random_seed();
        let ghost drawn = seed;
        let decision = registration_from_seed(namespace, seed);
        proof {
            if let Some(s) = drawn {
                assert(s@.len() == 32);
            }
        }
        decision
    }
}

impl NamespaceRegistration {
    /// The answer once the public key is stored: success, with the token.
    pub fn reply(&self) -> (reply: NamespaceReply)
        ensures
            reply.success,
            reply.token matches Some(t) && t@ == self.token@,
            reply.errors@.len() == 0,
    {
        NamespaceReply { success: true, token: Some(self.token.clone()), errors: Vec::new() }
    }
}

/// The seed that a token encodes, if it is one.
pub fn token_seed(token: &str) -> (seed: Option<Vec<u8>>)
    ensures
        opt_bytes(seed) == base64_url_nopad_decode(token@),
        forall|bytes: Seq<u8>| #[trigger] base64_url_nopad(bytes) == token@ ==> opt_bytes(seed)
            == Some(bytes),
{
    decode_url_nopad(token)
}

/// What opening a token gives: the public key of the 32-byte seed it
/// encodes, or nothing.
pub open spec fn token_key(token: Seq<char>) -> Option<Seq<u8>> {
    match base64_url_nopad_decode(token) {
        Some(seed) => if seed.len() == 32 {
            Some(ed25519_public_key(seed))
        } else {
            None
        },
        None => None,
    }
}

/// The public key that a token opens. A token handed out at registration
/// opens the public key kept for it.
pub fn token_public_key(token: &str) -> (public_key: Option<Vec<u8>>)
    ensures
        opt_bytes(public_key) == token_key(token@),
        forall|seed: Seq<u8>|
            seed.len() == 32 && #[trigger] base64_url_nopad(seed) == token@ ==> opt_bytes(
                public_key,
            ) == Some(ed25519_public_key(seed)),
{
    match decode_url_nopad(token) {
        Some(seed) => {
            if seed.len() == 32 {
                Some(derive_public_key(seed.as_slice()))
            } else {
                None
            }
        },
        None => None,
    }
}

} // verus!
