use secp256k1::{PublicKey, Secp256k1, SecretKey};
use ticker::auth::{conclude, evaulate, hash, public_key, refusal_status, sign, AuthError, SequenceStore};
use ticker::canonical::{write_decimal, Active, Authentication, CanonicalJson, Message, TriggerTick};

fn key(byte: u8) -> [u8; 32] {
    [byte; 32]
}

fn public(sk: &[u8; 32]) -> [u8; 33] {
    public_key(sk).unwrap()
}

fn json<T: CanonicalJson>(value: &T) -> String {
    let mut out = Vec::new();
    assert!(value.write_json(&mut out));
    String::from_utf8(out).unwrap()
}

fn hi() -> Message {
    Message { message: "hi".to_string() }
}

#[test]
fn decimal_texts() {
    for (n, text) in [(0u64, "0"), (7, "7"), (10, "10"), (1234, "1234"), (u64::MAX, "18446744073709551615")] {
        let mut out = b"x".to_vec();
        write_decimal(n, &mut out);
        assert_eq!(out, format!("x{}", text).into_bytes());
    }
}

#[test]
fn payload_texts() {
    assert_eq!(json(&hi()), "{\"message\":\"hi\"}");
    assert_eq!(json(&Message { message: "a\"b\\c\n".to_string() }), "{\"message\":\"a\\\"b\\\\c\\n\"}");
    assert_eq!(json(&Message { message: "\u{1}\u{1f}\té".to_string() }), "{\"message\":\"\\u0001\\u001f\\té\"}");
    assert_eq!(json(&Active { active: true }), "{\"active\":true}");
    assert_eq!(json(&Active { active: false }), "{\"active\":false}");
    assert_eq!(json(&TriggerTick { ty: 7 }), "{\"ty\":7}");
    assert_eq!(json(&TriggerTick { ty: 255 }), "{\"ty\":255}");
}

#[test]
fn envelope_text() {
    let env = Authentication { sequence: 0, message: hi() };
    assert_eq!(json(&env), "{\"sequence\":0,\"message\":{\"message\":\"hi\"}}");
    let env = Authentication { sequence: 42, message: Active { active: false } };
    assert_eq!(json(&env), "{\"sequence\":42,\"message\":{\"active\":false}}");
}

#[test]
fn digest_is_sha256_of_envelope_text() {
    type Sha256 = secp256k1::hashes::sha256::Hash;
    let digest = <Sha256 as secp256k1::hashes::Hash>::hash(b"{\"sequence\":3,\"message\":{\"ty\":2}}");
    let expected = <Sha256 as secp256k1::hashes::Hash>::to_byte_array(digest);
    assert_eq!(hash(Authentication { sequence: 3, message: TriggerTick { ty: 2 } }), Some(expected));
    let other = hash(Authentication { sequence: 4, message: TriggerTick { ty: 2 } });
    assert_ne!(other, Some(expected));
}

#[test]
fn signature_by_the_right_key_verifies() {
    let sk = key(0x11);
    let pk = public(&sk);
    for s in [0u64, 1, 99, 123456789] {
        let mut store = SequenceStore::new(s);
        let sig = sign(&sk, Active { active: true }, s).unwrap();
        assert_eq!(evaulate(&mut store, &pk, &sig, Active { active: true }), Ok(()));
        assert_eq!(store.read(), s + 1);
    }
}

#[test]
fn signature_by_another_key_is_refused() {
    let sk = key(0x11);
    let pk = public(&sk);
    let wrong = key(0x22);
    let mut store = SequenceStore::new(5);
    let sig = sign(&wrong, hi(), 5).unwrap();
    assert_eq!(evaulate(&mut store, &pk, &sig, hi()), Err(AuthError::Unauthorized));
    assert_eq!(store.read(), 5);
}

#[test]
fn signature_for_another_payload_is_refused() {
    let sk = key(0x11);
    let pk = public(&sk);
    let mut store = SequenceStore::new(0);
    let sig = sign(&sk, TriggerTick { ty: 1 }, 0).unwrap();
    assert_eq!(evaulate(&mut store, &pk, &sig, TriggerTick { ty: 2 }), Err(AuthError::Unauthorized));
    assert_eq!(store.read(), 0);
}

#[test]
fn replayed_request_is_refused() {
    let sk = key(0x33);
    let pk = public(&sk);
    let mut store = SequenceStore::new(0);
    assert_eq!(store.read(), 0);
    let header = sign(&sk, hi(), store.read()).unwrap();
    assert_eq!(evaulate(&mut store, &pk, &header, hi()), Ok(()));
    assert_eq!(store.read(), 1);
    assert_eq!(evaulate(&mut store, &pk, &header, hi()), Err(AuthError::Unauthorized));
    assert_eq!(store.read(), 1);
}

#[test]
fn stale_sequence_is_refused() {
    let sk = key(0x33);
    let pk = public(&sk);
    let mut store = SequenceStore::new(8);
    let header = sign(&sk, hi(), 7).unwrap();
    assert_eq!(evaulate(&mut store, &pk, &header, hi()), Err(AuthError::Unauthorized));
    assert_eq!(store.read(), 8);
}

#[test]
fn malformed_header_is_refused() {
    let pk = public(&key(0x11));
    let mut store = SequenceStore::new(2);
    assert_eq!(evaulate(&mut store, &pk, "not a signature", hi()), Err(AuthError::Malformed));
    assert_eq!(evaulate(&mut store, &pk, "", hi()), Err(AuthError::Malformed));
    assert_eq!(store.read(), 2);
}

#[test]
fn exhausted_sequence_is_refused() {
    let sk = key(0x44);
    let pk = public(&sk);
    let mut store = SequenceStore::new(u64::MAX);
    let header = sign(&sk, hi(), u64::MAX).unwrap();
    assert_eq!(evaulate(&mut store, &pk, &header, hi()), Err(AuthError::SequenceExhausted));
    assert_eq!(store.read(), u64::MAX);
}

#[test]
fn sequence_moves_only_on_success() {
    let mut store = SequenceStore::new(0);
    assert_eq!(conclude(&mut store, false), Err(AuthError::Unauthorized));
    assert_eq!(store.read(), 0);
    assert_eq!(conclude(&mut store, true), Ok(()));
    assert_eq!(conclude(&mut store, true), Ok(()));
    assert_eq!(conclude(&mut store, false), Err(AuthError::Unauthorized));
    assert_eq!(store.read(), 2);
    store.advance_to(10);
    assert_eq!(store.read(), 10);
    let mut full = SequenceStore::new(u64::MAX);
    assert_eq!(conclude(&mut full, true), Err(AuthError::SequenceExhausted));
    assert_eq!(full.read(), u64::MAX);
}

#[test]
fn signing_is_deterministic_and_verifiable() {
    let sk = key(0x55);
    let a = sign(&sk, TriggerTick { ty: 4 }, 12).unwrap();
    let b = sign(&sk, TriggerTick { ty: 4 }, 12).unwrap();
    assert_eq!(a, b);
    assert_ne!(a, sign(&sk, TriggerTick { ty: 4 }, 13).unwrap());
    let sig: secp256k1::ecdsa::Signature = a.parse().unwrap();
    let digest = hash(Authentication { sequence: 12, message: TriggerTick { ty: 4 } }).unwrap();
    let secret = SecretKey::from_slice(&sk).unwrap();
    let pk = PublicKey::from_secret_key(&Secp256k1::new(), &secret);
    let message = secp256k1::Message::from_digest(digest);
    assert!(Secp256k1::verification_only().verify_ecdsa(&message, &sig, &pk).is_ok());
}

#[test]
fn invalid_secret_signs_nothing() {
    assert_eq!(sign(&[0u8; 32], hi(), 0), None);
    assert_eq!(sign(&[0xFFu8; 32], hi(), 0), None);
}

#[test]
fn unparsable_public_key_refuses() {
    let sk = key(0x11);
    let header = sign(&sk, hi(), 0).unwrap();
    let mut store = SequenceStore::new(0);
    assert_eq!(evaulate(&mut store, &[0u8; 33], &header, hi()), Err(AuthError::Unauthorized));
    assert_eq!(store.read(), 0);
}

#[test]
fn public_key_matches_secp256k1() {
    let sk = key(0x11);
    let expected = PublicKey::from_secret_key(&Secp256k1::new(), &SecretKey::from_slice(&sk).unwrap()).serialize();
    assert_eq!(public_key(&sk), Some(expected));
    assert_ne!(public_key(&key(0x22)), Some(expected));
    assert_eq!(public_key(&[0u8; 32]), None);
    assert_eq!(public_key(&[0xFFu8; 32]), None);
}

#[test]
fn refusal_statuses() {
    assert_eq!(refusal_status(AuthError::Malformed), 401);
    assert_eq!(refusal_status(AuthError::Unauthorized), 401);
    assert_eq!(refusal_status(AuthError::SequenceExhausted), 500);
}
