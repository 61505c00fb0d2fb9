use forty_five_bot::commands::ChatPayload;
use forty_five_bot::event::{
    authenticate, event, parse_signature_header, verify_signature, EventDecision, InboundEvent,
};
use forty_five_bot::twitch::{credentials_step, CredAction, CredEvent, CredState};

fn header_for(key: &[u8], id: &str, ts: &str, body: &str) -> String {
    let input = format!("{}{}{}", id, ts, body);
    let tag = hmac_sha256::HMAC::mac(input.as_bytes(), key);
    format!("sha256={}", hex::encode(tag))
}

#[test]
fn a_correctly_signed_request_authenticates() {
    let key = b"hmac test key";
    let header = header_for(key, "id-1", "2020-01-01T00:00:00Z", "{\"x\":1}");
    assert!(authenticate(
        "id-1",
        "2020-01-01T00:00:00Z",
        "{\"x\":1}",
        &header,
        "hmac test key"
    ));
}

#[test]
fn any_altered_byte_fails_authentication() {
    let key = b"hmac test key";
    let header = header_for(key, "id-1", "2020-01-01T00:00:00Z", "{\"x\":1}");
    // One byte of the body differs.
    assert!(!authenticate(
        "id-1",
        "2020-01-01T00:00:00Z",
        "{\"x\":2}",
        &header,
        "hmac test key"
    ));
    // One byte of the timestamp differs.
    assert!(!authenticate(
        "id-1",
        "2021-01-01T00:00:00Z",
        "{\"x\":1}",
        &header,
        "hmac test key"
    ));
    // One byte of the message id differs.
    assert!(!authenticate(
        "id-2",
        "2020-01-01T00:00:00Z",
        "{\"x\":1}",
        &header,
        "hmac test key"
    ));
    // The wrong key fails too.
    assert!(!authenticate("id-1", "2020-01-01T00:00:00Z", "{\"x\":1}", &header, "other"));
}

#[test]
fn malformed_signature_headers_are_rejected() {
    assert!(parse_signature_header("").is_none());
    assert!(parse_signature_header("sha256=").is_none());
    assert!(parse_signature_header("sha256=zz").is_none());
    let ok = format!("sha256={}", "ab".repeat(32));
    assert!(parse_signature_header(&ok).is_some());
    let bad_prefix = format!("sha255={}", "ab".repeat(32));
    assert!(parse_signature_header(&bad_prefix).is_none());
    let bad_digit = format!("sha256={}g", "ab".repeat(31).to_string() + "a");
    assert!(parse_signature_header(&bad_digit).is_none());
}

#[test]
fn signature_header_decodes_to_the_tag_bytes() {
    let tag: Vec<u8> = (0u8..32).collect();
    let header = format!("sha256={}", hex::encode(&tag));
    let parsed = parse_signature_header(&header).unwrap();
    assert_eq!(parsed.to_vec(), tag);
    // Upper-case digits decode the same way.
    let upper = format!("sha256={}", hex::encode_upper(&tag));
    let parsed = parse_signature_header(&upper).unwrap();
    assert_eq!(parsed.to_vec(), tag);
}

#[test]
fn verify_signature_matches_the_keyed_hash() {
    let tag = hmac_sha256::HMAC::mac(b"payload", b"key");
    assert!(verify_signature(b"key", b"payload", &tag));
    assert!(!verify_signature(b"key", b"payloae", &tag));
    assert!(!verify_signature(b"kex", b"payload", &tag));
}

#[test]
fn verification_handshake_echoes_the_challenge() {
    let d: EventDecision = event(InboundEvent::Verification { challenge: "pong".to_string() });
    assert_eq!(d.status, 200);
    assert_eq!(d.body.as_deref(), Some("pong"));
    assert!(d.text_plain);
    assert!(!d.dispatch);
}

#[test]
fn chat_notifications_are_dispatched_and_acknowledged() {
    let payload = ChatPayload {
        broadcaster_user_id: "100".to_string(),
        chatter_user_id: "200".to_string(),
        chatter_user_name: "Bob".to_string(),
        source_broadcaster_user_id: None,
        message_text: "!45".to_string(),
        badges: vec![],
    };
    let d = event(InboundEvent::ChatNotification(payload));
    assert_eq!(d.status, 200);
    assert!(d.body.is_none());
    assert!(d.dispatch);

    let d = event(InboundEvent::Other);
    assert_eq!(d.status, 200);
    assert!(d.body.is_none());
    assert!(!d.dispatch);
}

#[test]
fn a_stored_token_is_validated_then_used() {
    let (s, a) = credentials_step(
        CredState::Init,
        CredEvent::Begin { stored: Some("tok".to_string()) },
    );
    assert!(matches!(&a, CredAction::Validate { token } if token == "tok"));
    let (s, a) = credentials_step(s, CredEvent::Succeeded { token: "tok".to_string() });
    assert!(matches!(&a, CredAction::Finish { token } if token == "tok"));
    assert!(matches!(s, CredState::Done { .. }));
}

#[test]
fn a_missing_token_is_exchanged_and_persisted() {
    let (s, a) = credentials_step(CredState::Init, CredEvent::Begin { stored: None });
    assert!(matches!(a, CredAction::Exchange));
    let (s, a) = credentials_step(s, CredEvent::Succeeded { token: "fresh".to_string() });
    assert!(matches!(&a, CredAction::StoreToken { token } if token == "fresh"));
    let (s, a) = credentials_step(s, CredEvent::Stored);
    assert!(matches!(&a, CredAction::Finish { token } if token == "fresh"));
    assert!(matches!(s, CredState::Done { .. }));
}

#[test]
fn a_failed_validation_gets_one_reacquisition() {
    let (s, _) = credentials_step(
        CredState::Init,
        CredEvent::Begin { stored: Some("stale".to_string()) },
    );
    let (s, a) = credentials_step(s, CredEvent::FailedAttempt);
    assert!(matches!(a, CredAction::Exchange));
    let (s, a) = credentials_step(s, CredEvent::FailedAttempt);
    assert!(matches!(a, CredAction::GiveUp));
    assert!(matches!(s, CredState::Failed));
}
