//! Signing and verifying mutations against the server's sequence counter.
//!
//! A payload is signed together with the sequence number that the server
//! holds at the time; the server checks the signature against its current
//! number and advances the number by one on success only, so that a captured
//! request cannot be replayed once any mutation has been accepted.
use crate::canonical::{Authentication, CanonicalJson, lemma_envelope_sequence_injective};
use secp256k1::ecdsa::Signature;
use secp256k1::{PublicKey, SecretKey};
use vstd::prelude::*;

verus! {

/// The SHA-256 digest of a byte string.
pub uninterp spec fn sha256_of(data: Seq<u8>) -> Seq<u8>;

/// Relies on `secp256k1::hashes::sha256::Hash::hash`: the SHA-256 digest of
/// the bytes.
#[verifier::external_body]
fn sha256(data: &[u8]) -> (r: [u8; 32])
    ensures
        r@ == sha256_of(data@),
{
    let digest = <secp256k1::hashes::sha256::Hash as secp256k1::hashes::Hash>::hash(data);
    <secp256k1::hashes::sha256::Hash as secp256k1::hashes::Hash>::to_byte_array(digest)
}

/// Whether a text is the hex form of a DER-encoded ECDSA signature.
pub uninterp spec fn signature_text_parses(text: Seq<char>) -> bool;

/// Relies on `FromStr for secp256k1::ecdsa::Signature`: hex of a DER
/// signature, accepted or refused on the text alone.
#[verifier::external_body]
fn parse_signature(text: &str) -> (r: bool)
    ensures
        r == signature_text_parses(text@),
{
    text.parse::<Signature>().is_ok()
}

/// Whether 32 bytes are a valid secp256k1 secret key (non-zero and below
/// the curve order).
pub uninterp spec fn secret_key_valid(secret: Seq<u8>) -> bool;

/// The 33-byte compressed public key that belongs to a 32-byte secret key.
pub uninterp spec fn public_key_of(secret: Seq<u8>) -> Seq<u8>;

/// Relies on `SecretKey::from_slice`, `PublicKey::from_secret_key` and
/// `PublicKey::serialize`: the compressed public key of the secret key,
/// where the bytes are a valid secret key.
#[verifier::external_body]
fn derive_public_key(secret: &[u8; 32]) -> (r: Option<[u8; 33]>)
    ensures
        r is Some <==> secret_key_valid(secret@),
        r matches Some(k) ==> k@ == public_key_of(secret@),
{
    match SecretKey::from_slice(secret) {
        Ok(key) => {
            let context = secp256k1::Secp256k1::signing_only();
            Some(PublicKey::from_secret_key(&context, &key).serialize())
        },
        Err(_) => None,
    }
}

/// The compressed public key under which signatures made with `secret` are
/// checked; `None` where the bytes are not a valid secret key.
pub fn public_key(secret: &[u8; 32]) -> (r: Option<[u8; 33]>)
    ensures
        r is Some <==> secret_key_valid(secret@),
        r matches Some(k) ==> k@ == public_key_of(secret@),
{
    derive_public_key(secret)
}

/// The text (hex of DER) of the ECDSA signature of a 32-byte digest under a
/// 32-byte secret key, with its nonce drawn by RFC 6979 from key and digest;
/// `None` where the bytes are not a valid secret key.
pub uninterp spec fn ecdsa_signature_of(secret: Seq<u8>, digest: Seq<u8>) -> Option<Seq<char>>;

/// Whether a signature text is valid for a 32-byte digest under a public key
/// given as its compressed bytes; false where either does not parse.
pub uninterp spec fn ecdsa_accepts(public: Seq<u8>, digest: Seq<u8>, signature: Seq<char>) -> bool;

/// Relies on `SecretKey::from_slice`, `Secp256k1::sign_ecdsa` (RFC 6979
/// nonces, so the signature depends on key and digest alone) and `Display`
/// for `Signature`. A signature so made parses back, and verifies under the
/// key's public key (`PublicKey::from_secret_key`), as the example on
/// `verify_ecdsa` shows.
#[verifier::external_body]
fn ecdsa_sign(secret: &[u8; 32], digest: [u8; 32]) -> (r: Option<String>)
    ensures
        match r {
            Some(t) => ecdsa_signature_of(secret@, digest@) == Some(t@),
            None => ecdsa_signature_of(secret@, digest@) is None,
        },
        r is Some <==> secret_key_valid(secret@),
        r matches Some(t) ==> signature_text_parses(t@),
        r matches Some(t) ==> ecdsa_accepts(public_key_of(secret@), digest@, t@),
{
    match SecretKey::from_slice(secret) {
        Ok(key) => {
            let message = secp256k1::Message::from_digest(digest);
            Some(secp256k1::Secp256k1::signing_only().sign_ecdsa(&message, &key).to_string())
        },
        Err(_) => None,
    }
}

/// Relies on `PublicKey::from_slice`, `FromStr for Signature` and
/// `Secp256k1::verify_ecdsa` in a verification-only context: whether the
/// signature text is valid for the digest under the key.
#[verifier::external_body]
fn ecdsa_verify(public: &[u8; 33], digest: [u8; 32], signature: &str) -> (r: bool)
    ensures
        r == ecdsa_accepts(public@, digest@, signature@),
{
    match (PublicKey::from_slice(public), signature.parse::<Signature>()) {
        (Ok(key), Ok(sig)) => {
            let message = secp256k1::Message::from_digest(digest);
            secp256k1::Secp256k1::verification_only().verify_ecdsa(&message, &sig, &key).is_ok()
        },
        _ => false,
    }
}

/// The digest that is signed for an envelope: SHA-256 of its canonical text.
pub open spec fn digest_of<T: CanonicalJson>(msg: Authentication<T>) -> Option<Seq<u8>> {
    match msg.canonical_json() {
        Some(text) => Some(sha256_of(text)),
        None => None,
    }
}

/// The digest of an envelope; `None` where its payload has no canonical text.
pub fn hash<T: CanonicalJson>(msg: Authentication<T>) -> (r: Option<[u8; 32]>)
    ensures
        match r {
            Some(d) => digest_of(msg) == Some(d@),
            None => digest_of(msg) is None,
        },
{
    let mut text: Vec<u8> = Vec::new();
    if msg.write_json(&mut text) {
        proof {
            assert(text@ =~= msg.canonical_json()->0);
        }
        Some(sha256(text.as_slice()))
    } else {
        None
    }
}

/// Whether `cert` is a valid signature, under the compressed public key
/// `public`, of `payload` at sequence number `sequence`.
pub open spec fn accepted_at<T: CanonicalJson>(
    public: Seq<u8>,
    sequence: u64,
    payload: T,
    cert: Seq<char>,
) -> bool {
    match digest_of(Authentication { sequence, message: payload }) {
        Some(d) => signature_text_parses(cert) && ecdsa_accepts(public, d, cert),
        None => false,
    }
}

/// Signs `msg` for the moment when the server's sequence number is
/// `sequence`, and returns the signature as the text sent in the `auth`
/// header. `None` where the payload has no canonical text or the bytes are
/// not a valid secret key.
pub fn sign<T: CanonicalJson>(secret_key: &[u8; 32], msg: T, sequence: u64) -> (r: Option<
    String,
>)
    ensures
        match digest_of(Authentication { sequence, message: msg }) {
            Some(d) => match r {
                Some(t) => ecdsa_signature_of(secret_key@, d) == Some(t@),
                None => ecdsa_signature_of(secret_key@, d) is None,
            },
            None => r is None,
        },
        r is Some <==> secret_key_valid(secret_key@) && msg.canonical_json() is Some,
        r matches Some(t) ==> accepted_at(public_key_of(secret_key@), sequence, msg, t@),
{
    match hash(Authentication { sequence, message: msg }) {
        Some(digest) => ecdsa_sign(secret_key, digest),
        None => None,
    }
}

/// Why a mutation was refused.
#[derive(Clone, Copy, Debug, PartialEq, Eq, Structural)]
pub enum AuthError {
    /// The signature header does not parse, or the payload has no canonical text.
    Malformed,
    /// The signature is not valid for the current sequence number.
    Unauthorized,
    /// The sequence number is at its largest and cannot advance.
    SequenceExhausted,
}

/// The HTTP status with which the server answers a refusal: 401 for a
/// request that is malformed or not validly signed, 500 for a counter that
/// can no longer advance, which is a fault of the server and not of the
/// request.
pub fn refusal_status(e: AuthError) -> (r: u16)
    ensures
        e == AuthError::Malformed || e == AuthError::Unauthorized ==> r == 401,
        e == AuthError::SequenceExhausted ==> r == 500,
{
    match e {
        AuthError::Malformed | AuthError::Unauthorized => 401,
        AuthError::SequenceExhausted => 500,
    }
}

/// The server's sequence counter: the one number a signature may be made for.
pub struct SequenceStore {
    value: u64,
}

impl View for SequenceStore {
    type V = u64;

    closed spec fn view(&self) -> u64 {
        self.value
    }
}

impl SequenceStore {
    /// A counter that starts at `start` (0 for a new store).
    pub fn new(start: u64) -> (r: Self)
        ensures
            r@ == start,
    {
        SequenceStore { value: start }
    }

    /// The current sequence number.
    pub fn read(&self) -> (r: u64)
        ensures
            r == self@,
    {
        self.value
    }

    /// Moves the counter forward to `new`; it never moves back.
    pub fn advance_to(&mut self, new: u64)
        requires
            old(self)@ <= new,
        ensures
            final(self)@ == new,
    {
        self.value = new;
    }
}

/// What a verification concludes from the signature check's answer.
pub open spec fn verdict(current: u64, accepted: bool) -> Result<(), AuthError> {
    if !accepted {
        Err(AuthError::Unauthorized)
    } else if current == u64::MAX {
        Err(AuthError::SequenceExhausted)
    } else {
        Ok(())
    }
}

/// Settles a verification once the signature check has answered: on
/// acceptance the counter advances by exactly one, otherwise it stays.
pub fn conclude(store: &mut SequenceStore, accepted: bool) -> (r: Result<(), AuthError>)
    ensures
        r == verdict(old(store)@, accepted),
        r is Ok ==> final(store)@ == old(store)@ + 1,
        r is Err ==> final(store)@ == old(store)@,
{
    let current = store.read();
    if !accepted {
        Err(AuthError::Unauthorized)
    } else if current == u64::MAX {
        Err(AuthError::SequenceExhausted)
    } else {
        store.advance_to(current + 1);
        Ok(())
    }
}

/// What a verification at stored number `current` answers.
pub open spec fn evaluation<T: CanonicalJson>(
    public: Seq<u8>,
    current: u64,
    payload: T,
    cert: Seq<char>,
) -> Result<(), AuthError> {
    if payload.canonical_json() is None || !signature_text_parses(cert) {
        Err(AuthError::Malformed)
    } else {
        verdict(current, accepted_at(public, current, payload, cert))
    }
}

/// Checks that `cert` signs `expected` at the store's current sequence
/// number under the compressed public key `pubkey`, and advances the number
/// by one if it does.
pub fn evaulate<T: CanonicalJson>(
    store: &mut SequenceStore,
    pubkey: &[u8; 33],
    cert: &str,
    expected: T,
) -> (r: Result<(), AuthError>)
    ensures
        r == evaluation(pubkey@, old(store)@, expected, cert@),
        r is Ok ==> final(store)@ == old(store)@ + 1,
        r is Err ==> final(store)@ == old(store)@,
{
    let sequence = store.read();
    let digest = match hash(Authentication { sequence, message: expected }) {
        Some(d) => d,
        None => {
            return Err(AuthError::Malformed);
        },
    };
    if !parse_signature(cert) {
        return Err(AuthError::Malformed);
    }
    let accepted = ecdsa_verify(pubkey, digest, cert);
    conclude(store, accepted)
}

/// A request signed for the stored sequence number with the secret key that
/// belongs to the server's public key is accepted, unless the number can no
/// longer advance.
pub proof fn lemma_signed_request_accepted<T: CanonicalJson>(
    secret: Seq<u8>,
    sequence: u64,
    payload: T,
    cert: Seq<char>,
)
    requires
        accepted_at(public_key_of(secret), sequence, payload, cert),
        sequence < u64::MAX,
    ensures
        evaluation(public_key_of(secret), sequence, payload, cert) == Ok::<(), AuthError>(()),
{
}

/// Replay: once a verification at sequence `s` has succeeded, the store holds
/// `s + 1`, and a resubmitted request is checked against the envelope text at
/// `s + 1`, which is never the text that was signed at `s`.
pub proof fn lemma_resubmission_checks_new_text<T: CanonicalJson>(s: u64, payload: T)
    requires
        s < u64::MAX,
        payload.canonical_json() is Some,
    ensures
        (Authentication { sequence: (s + 1) as u64, message: payload }).canonical_json()
            is Some,
        (Authentication { sequence: (s + 1) as u64, message: payload }).canonical_json()
            != (Authentication { sequence: s, message: payload }).canonical_json(),
{
    let p = payload.canonical_json()->0;
    if crate::canonical::envelope_json((s + 1) as nat, p) == crate::canonical::envelope_json(
        s as nat,
        p,
    ) {
        lemma_envelope_sequence_injective((s + 1) as nat, s as nat, p);
    }
}

} // verus!
