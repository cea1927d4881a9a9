use base64::Engine;
use mithic::encoding::decode_url_b64;
use web_push_native::jwt_simple::algorithms::ECDSAP256KeyPairLike;
use mithic::services::push::{decode_subscription_keys, is_stale_push_status, push_outcome, PushKeyError, PushOutcome};
use mithic::services::vapid::{parse_vapid_key, prepare_push, PushPlan, PushPrepError, PushRequest};
use mithic::services::web_push::WebPushService;

#[test]
fn stale_on_404_and_410() {
    assert!(is_stale_push_status(404));
    assert!(is_stale_push_status(410));
    assert!(!is_stale_push_status(200));
    assert!(!is_stale_push_status(400));
}

#[test]
fn decode_url_safe_b64() {
    let raw = decode_url_b64("RS0WdYWWo1HajXg3NZR1olzCf31i-ZBGDkFyCs7j1jw").unwrap();
    assert_eq!(raw.len(), 32);
}

#[test]
fn decode_accepts_padding_too() {
    assert_eq!(decode_url_b64("aGk=").unwrap(), b"hi".to_vec());
    assert_eq!(decode_url_b64("aGk").unwrap(), b"hi".to_vec());
    assert!(decode_url_b64("!!").is_err());
}

#[test]
fn decode_rejects_non_canonical_text() {
    // trailing bits set in the last symbol
    assert!(decode_url_b64("aGl").is_err());
    assert!(decode_url_b64("aGl=").is_err());
    // padding where none belongs, and a length no encoding has
    assert!(decode_url_b64("aGk==").is_err());
    assert!(decode_url_b64("aGk=a").is_err());
    assert!(decode_url_b64("a").is_err());
    // the standard alphabet's symbols are not URL-safe
    assert!(decode_url_b64("+/8").is_err());
    assert_eq!(decode_url_b64("-_8").unwrap(), vec![251u8, 255u8]);
    assert_eq!(decode_url_b64("").unwrap(), Vec::<u8>::new());
}

#[test]
fn push_outcomes() {
    assert_eq!(push_outcome(201), PushOutcome::Sent);
    assert_eq!(push_outcome(410), PushOutcome::Stale);
    assert_eq!(push_outcome(500), PushOutcome::Failed);
}

#[test]
fn subscription_keys_need_sixteen_byte_auth() {
    let ok = decode_subscription_keys(
        "BLn9b-VR0ca83knDNZ32dCHGyjJp-1riX9ZTN40MqV8K_LpQmLqxC_DoHvqvFXO_nGdAB4W9dogZb_sM-uV4JbY",
        "_ordMnz7uTCmrpBTeUV4Bw",
    )
    .unwrap();
    assert_eq!(ok.0.len(), 65);
    assert_eq!(ok.1.len(), 16);
    assert_eq!(decode_subscription_keys("aGk", "aGk"), Err(PushKeyError::AuthLength(2)));
    assert_eq!(decode_subscription_keys("!!", "aGk"), Err(PushKeyError::InvalidP256dh));
    assert_eq!(decode_subscription_keys("aGk", "!!"), Err(PushKeyError::InvalidAuth));
}

#[test]
fn web_push_subject_and_switch() {
    let s = WebPushService::new(None, None, Some("pub".to_string()));
    assert_eq!(s.subject, "mailto:admin@example.com");
    assert!(!s.is_enabled());
    assert_eq!(s.get_public_key(), Some(&"pub".to_string()));
    let t = WebPushService::new(Some("ops@mithic.test".to_string()), Some("k".to_string()), None);
    assert_eq!(t.subject, "mailto:ops@mithic.test");
    assert!(t.is_enabled());
    assert_eq!(t.get_public_key(), None);
}

const VAPID_PRIVATE: &str = "RS0WdYWWo1HajXg3NZR1olzCf31i-ZBGDkFyCs7j1jw";
const P256DH: &str = "BLn9b-VR0ca83knDNZ32dCHGyjJp-1riX9ZTN40MqV8K_LpQmLqxC_DoHvqvFXO_nGdAB4W9dogZb_sM-uV4JbY";
const AUTH: &str = "_ordMnz7uTCmrpBTeUV4Bw";

fn header<'a>(r: &'a PushRequest, name: &str) -> Option<&'a str> {
    r.headers.iter().find(|(k, _)| k == name).map(|(_, v)| v.as_str())
}

#[test]
fn build_request_from_example_subscription() {
    let (key_pair, _public) = parse_vapid_key(VAPID_PRIVATE).unwrap();
    let plan = prepare_push(Some(&key_pair), "https://example.com/", P256DH, AUTH, "mailto:admin@example.com", "hello");
    let request = match plan {
        PushPlan::Ready(r) => r,
        other => panic!("expected a request, got {:?}", other),
    };
    assert_eq!(request.method, "POST");
    assert_eq!(header(&request, "content-encoding"), Some("aes128gcm"));
    assert!(header(&request, "authorization").is_some());
    assert!(!request.body.is_empty());
    assert_eq!(request.body.len(), "hello".len() + 103);
    assert_eq!(header(&request, "ttl"), Some("43200"));
    assert_eq!(request.uri, "https://example.com/");
}

#[test]
fn vapid_public_key_matches_the_key_crate() {
    let (_, public) = parse_vapid_key(VAPID_PRIVATE).unwrap();
    let raw = base64::engine::general_purpose::URL_SAFE_NO_PAD.decode(VAPID_PRIVATE).unwrap();
    let kp = web_push_native::jwt_simple::algorithms::ES256KeyPair::from_bytes(&raw).unwrap();
    let expected = base64::engine::general_purpose::URL_SAFE_NO_PAD.encode(kp.key_pair().public_key().to_bytes_uncompressed());
    assert_eq!(public, expected);
    assert!(parse_vapid_key("***").is_none());
}

#[test]
fn pushes_that_are_not_sent() {
    let (kp, _) = parse_vapid_key(VAPID_PRIVATE).unwrap();
    assert!(matches!(prepare_push(None, "https://example.com/", P256DH, AUTH, "mailto:a@b", "x"), PushPlan::Skip));
    assert!(matches!(prepare_push(Some(&kp), "not a uri", P256DH, AUTH, "mailto:a@b", "x"), PushPlan::Failed(PushPrepError::InvalidEndpoint)));
    assert!(matches!(prepare_push(Some(&kp), "https://e/", "%%%", AUTH, "mailto:a@b", "x"), PushPlan::Failed(PushPrepError::InvalidBase64)));
    assert!(matches!(prepare_push(Some(&kp), "https://e/", P256DH, "aGk", "mailto:a@b", "x"), PushPlan::Failed(PushPrepError::AuthLength(2))));
    assert!(matches!(prepare_push(Some(&kp), "https://e/", "aGk", AUTH, "mailto:a@b", "x"), PushPlan::Failed(PushPrepError::InvalidP256dh)));
}
