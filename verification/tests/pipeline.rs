use pollbot::handler::{handle_interaction, pong_body, HandlerOutcome};
use pollbot::sig::{verify_request, SigCheck};

fn test_key() -> (ed25519_dalek::PublicKey, ed25519_dalek::ExpandedSecretKey) {
    let secret = ed25519_dalek::SecretKey::from_bytes(&[7u8; 32]).unwrap();
    let public = ed25519_dalek::PublicKey::from(&secret);
    let expanded = ed25519_dalek::ExpandedSecretKey::from(&secret);
    (public, expanded)
}

fn signature_hex_over(msg: &[u8]) -> String {
    let (public, expanded) = test_key();
    let sig = expanded.sign(msg, &public);
    hex::encode(sig.to_bytes().to_vec())
}

fn key_bytes() -> Vec<u8> {
    test_key().0.to_bytes().to_vec()
}

const TS: &str = "1700000000";

fn signed(body: &[u8]) -> String {
    let mut msg = TS.as_bytes().to_vec();
    msg.extend_from_slice(body);
    signature_hex_over(&msg)
}

#[test]
fn signature_over_timestamp_then_body_verifies() {
    let body = b"{\"type\":1}";
    let sig = signed(body);
    assert_eq!(verify_request(&key_bytes(), TS, body, &sig), SigCheck::Valid);
}

#[test]
fn signature_over_body_then_timestamp_fails() {
    let body: &[u8] = b"{\"type\":1}";
    let mut wrong_order = body.to_vec();
    wrong_order.extend_from_slice(TS.as_bytes());
    let sig = signature_hex_over(&wrong_order);
    assert_eq!(verify_request(&key_bytes(), TS, body, &sig), SigCheck::Mismatch);
}

#[test]
fn flipped_body_bit_fails() {
    let body = b"{\"type\":1}";
    let sig = signed(body);
    let mut tampered = body.to_vec();
    tampered[2] ^= 1;
    assert_eq!(verify_request(&key_bytes(), TS, &tampered, &sig), SigCheck::Mismatch);
}

#[test]
fn non_hex_signature_is_malformed() {
    let body = b"{\"type\":1}";
    assert_eq!(verify_request(&key_bytes(), TS, body, "zz"), SigCheck::MalformedHex);
    let short = "ab".repeat(32);
    assert_eq!(verify_request(&key_bytes(), TS, body, &short), SigCheck::MalformedHex);
}

#[test]
fn high_scalar_bits_fail_signature_construction() {
    let body = b"{\"type\":1}";
    let sig = signed(body);
    let mut bytes = hex::decode(&sig).unwrap();
    bytes[63] |= 0xe0;
    let bad = hex::encode(bytes);
    assert_eq!(verify_request(&key_bytes(), TS, body, &bad), SigCheck::Construction);
}

#[test]
fn wrong_size_key_is_rejected() {
    let body = b"{\"type\":1}";
    let sig = signed(body);
    let short_key = vec![1u8; 31];
    assert_eq!(verify_request(&short_key, TS, body, &sig), SigCheck::BadKey);
    let outcome = handle_interaction(Some(TS), Some(&sig), body, &short_key);
    assert!(matches!(outcome, HandlerOutcome::KeyRejected));
    assert_eq!(outcome.status_code(), 500);
}

#[test]
fn ping_yields_pong_once_signature_passes() {
    let body = b"{\"type\":1}";
    let sig = signed(body);
    let outcome = handle_interaction(Some(TS), Some(&sig), body, &key_bytes());
    assert!(matches!(outcome, HandlerOutcome::Pong));
    assert_eq!(outcome.status_code(), 200);
    assert_eq!(pong_body(), "{\"type\":1}");
}

#[test]
fn missing_signature_header_is_bad_request() {
    let body = b"{\"type\":1}";
    let outcome = handle_interaction(Some(TS), None, body, &key_bytes());
    assert!(matches!(outcome, HandlerOutcome::MalformedHeader));
    assert_eq!(outcome.status_code(), 400);
}

#[test]
fn missing_timestamp_header_is_bad_request() {
    let body = b"{\"type\":1}";
    let sig = signed(body);
    let outcome = handle_interaction(None, Some(&sig), body, &key_bytes());
    assert!(matches!(outcome, HandlerOutcome::MalformedHeader));
    assert_eq!(outcome.status_code(), 400);
}

#[test]
fn tampered_request_is_unauthorized() {
    let body = b"{\"type\":1}";
    let sig = signed(b"{\"type\":2}");
    let outcome = handle_interaction(Some(TS), Some(&sig), body, &key_bytes());
    assert!(matches!(outcome, HandlerOutcome::Unauthorized));
    assert_eq!(outcome.status_code(), 401);
}

#[test]
fn invalid_json_after_valid_signature_is_bad_request() {
    let body = b"{\"type\":1";
    let sig = signed(body);
    let outcome = handle_interaction(Some(TS), Some(&sig), body, &key_bytes());
    assert!(matches!(outcome, HandlerOutcome::InvalidPayload));
    assert_eq!(outcome.status_code(), 400);
}

#[test]
fn unknown_command_is_empty_success_with_no_calls() {
    let body: &[u8] =
        b"{\"type\":2,\"id\":\"1\",\"token\":\"t\",\"data\":{\"name\":\"unknown\",\"options\":[]}}";
    let sig = signed(body);
    let outcome = handle_interaction(Some(TS), Some(&sig), body, &key_bytes());
    match &outcome {
        HandlerOutcome::Done { outbound, press } => {
            assert!(outbound.is_none());
            assert!(press.is_none());
        },
        other => panic!("not an empty success: {:?}", other),
    }
    assert_eq!(outcome.status_code(), 200);
}

#[test]
fn component_press_is_recorded_not_sent() {
    let body: &[u8] = b"{\"type\":3,\"id\":\"9\",\"token\":\"t\",\
        \"data\":{\"custom_id\":\"id-here:no\"},\"message\":{\"id\":\"31337\"}}";
    let sig = signed(body);
    let outcome = handle_interaction(Some(TS), Some(&sig), body, &key_bytes());
    match &outcome {
        HandlerOutcome::Done { outbound, press } => {
            assert!(outbound.is_none());
            let p = press.as_ref().expect("press record");
            assert_eq!(p.custom_id, "id-here:no");
            assert_eq!(p.message_id, 31337);
        },
        other => panic!("not a press: {:?}", other),
    }
}

#[test]
fn verification_key_decoding() {
    let (public, _) = test_key();
    let key_hex = hex::encode(public.to_bytes());
    assert_eq!(
        pollbot::sig::decode_verification_key(&key_hex),
        Some(public.to_bytes().to_vec())
    );
    assert_eq!(pollbot::sig::decode_verification_key(&key_hex[..62]), None);
    assert_eq!(pollbot::sig::decode_verification_key("zz"), None);
    assert_eq!(pollbot::sig::decode_verification_key(""), None);
}
