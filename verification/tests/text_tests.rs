use psn_solver::auth::{check_admin_auth, rate_limit_filter, FilterDecision};
use psn_solver::error::PSNServerError;
use psn_solver::intercept::{rewrite_request_body, RewriteGate, TokenSlot, AUTH_URL};
use psn_solver::message::{classify_media, match_field, FieldType, MediaKind, MessageDraft};
use psn_solver::model::{PSNNpssoResponse, SharedGlobalState};
use psn_solver::startup::parse_offset;
use psn_solver::strutil::{decimal_string, decimal_string_i32, str_contains, str_eq, str_find, str_starts_with};

#[test]
fn string_utilities() {
    assert!(str_starts_with("grant_type=captcha&x=1", "grant_type=captcha"));
    assert!(!str_starts_with("grant", "grant_type"));
    assert_eq!(str_find("abcabc", "ca"), Some(2));
    assert_eq!(str_find("abcabc", "zz"), None);
    assert_eq!(str_find("aaa", ""), Some(0));
    assert!(str_contains("Bearer secret-token", "secret"));
    assert!(!str_contains("Bearer", "secret"));
    assert!(str_eq("same", "same"));
    assert!(!str_eq("same", "sane"));
    assert!(!str_eq("same", "same "));
}

#[test]
fn request_rewrite_replaces_the_token_parameter() {
    let url = format!("{}/2.0/oauth/token", AUTH_URL);
    let body = "grant_type=captcha&response_token=&client_id=9".to_owned();
    let rewritten = rewrite_request_body(&url, Some(&body), "SOLVED");
    assert_eq!(rewritten.as_deref(), Some("grant_type=captcha&response_token=SOLVED"));
}

#[test]
fn request_rewrite_appends_a_missing_token_parameter() {
    let url = format!("{}/token", AUTH_URL);
    let body = "grant_type=captcha".to_owned();
    let rewritten = rewrite_request_body(&url, Some(&body), "SOLVED");
    assert_eq!(rewritten.as_deref(), Some("grant_type=captcharesponse_token=SOLVED"));
}

#[test]
fn request_rewrite_leaves_other_requests_alone() {
    let other_url = "https://cdn.example/asset.js";
    let body = "grant_type=captcha&response_token=".to_owned();
    assert!(rewrite_request_body(other_url, Some(&body), "T").is_none());

    let url = format!("{}/token", AUTH_URL);
    let password_body = "grant_type=password&user=x".to_owned();
    assert!(rewrite_request_body(&url, Some(&password_body), "T").is_none());
    assert!(rewrite_request_body(&url, None, "T").is_none());
}

#[test]
fn rewrite_gate_injects_the_solved_token_exactly_once() {
    let url = format!("{}/2.0/oauth/token", AUTH_URL);
    let body = "grant_type=captcha&response_token=&client_id=9".to_owned();
    let mut gate = RewriteGate::new();

    // before the token is available the placeholder stays empty and later
    // injections stay possible
    let early = gate.apply(&url, Some(&body), "");
    assert_eq!(early.as_deref(), Some("grant_type=captcha&response_token="));
    let skipped = gate.apply("https://cdn.example/x", Some(&body), "SOLVED");
    assert!(skipped.is_none());

    // the first matching request after the token became available carries it;
    // every later matching request proceeds untouched
    let injected = gate.apply(&url, Some(&body), "SOLVED");
    assert_eq!(injected.as_deref(), Some("grant_type=captcha&response_token=SOLVED"));
    let after = gate.apply(&url, Some(&body), "SOLVED");
    assert!(after.is_none());
}

#[test]
fn decimal_rendering() {
    assert_eq!(decimal_string(0), "0");
    assert_eq!(decimal_string(7), "7");
    assert_eq!(decimal_string(10), "10");
    assert_eq!(decimal_string(3600), "3600");
    assert_eq!(decimal_string(u32::MAX), "4294967295");
    assert_eq!(decimal_string_i32(0), "0");
    assert_eq!(decimal_string_i32(1209600), "1209600");
    assert_eq!(decimal_string_i32(-5), "-5");
    assert_eq!(decimal_string_i32(i32::MIN), "-2147483648");
    assert_eq!(decimal_string_i32(i32::MAX), "2147483647");
}

#[test]
fn token_slot_is_single_assignment() {
    let mut slot = TokenSlot::new();
    assert!(!slot.is_filled());

    let auth_url = format!("{}/token", AUTH_URL);
    slot.record_response("https://cdn.example/x", Some(payload("ignored", 1)));
    assert!(!slot.is_filled());
    slot.record_response(&auth_url, None);
    assert!(!slot.is_filled());
    slot.record_response(&auth_url, Some(payload("first", 3600)));
    assert!(slot.is_filled());
    slot.record_response(&auth_url, Some(payload("second", 60)));

    let taken = slot.take().expect("the first stored payload stays");
    assert_eq!(taken.npsso, "first");
    assert_eq!(taken.expires_in, 3600);
    assert!(slot.take().is_none());
}

fn payload(npsso: &str, expires_in: i32) -> PSNNpssoResponse {
    PSNNpssoResponse { npsso: npsso.to_owned(), expires_in }
}

#[test]
fn field_matching_follows_the_disposition() {
    assert!(matches!(match_field(None), FieldType::Unknown));
    assert!(matches!(
        match_field(Some("form-data; name=\"online_id\"")),
        FieldType::OnlineId
    ));
    assert!(matches!(match_field(Some("form-data; name=\"message\"")), FieldType::Message));
    assert!(matches!(match_field(Some("form-data; name=\"picture\"")), FieldType::Picture));
    assert!(matches!(match_field(Some("form-data; name=\"other\"")), FieldType::Unknown));
}

#[test]
fn media_classification() {
    assert!(matches!(classify_media("text", "plain"), MediaKind::TextPlain));
    assert!(matches!(classify_media("image", "png"), MediaKind::ImagePng));
    assert!(matches!(classify_media("image", "jpeg"), MediaKind::ImageJpeg));
    assert!(matches!(classify_media("image", "gif"), MediaKind::Unsupported));
    assert!(matches!(classify_media("audio", "mpeg"), MediaKind::Unsupported));
}

#[test]
fn message_draft_assembly() {
    let mut draft = MessageDraft::new();
    assert!(!draft.ready());

    assert!(draft.apply_text_chunk(&FieldType::OnlineId, "some"));
    assert!(draft.apply_text_chunk(&FieldType::OnlineId, "one"));
    assert_eq!(draft.online_id, "someone");
    assert!(!draft.apply_text_chunk(&FieldType::Picture, "stray"));
    assert!(draft.apply_text_chunk(&FieldType::Message, "hello"));
    assert_eq!(draft.msg.as_deref(), Some("hello"));
    assert!(draft.ready());

    assert!(draft.apply_picture_chunk(&FieldType::Picture, vec![1, 2, 3]));
    assert_eq!(draft.buf.as_deref(), Some(&[1u8, 2, 3][..]));
    assert!(!draft.apply_picture_chunk(&FieldType::Message, vec![9]));
    assert_eq!(draft.buf.as_deref(), Some(&[1u8, 2, 3][..]));
}

#[test]
fn message_without_recipient_or_content_is_not_sent() {
    let mut no_recipient = MessageDraft::new();
    assert!(no_recipient.apply_text_chunk(&FieldType::Message, "hi"));
    assert!(!no_recipient.ready());

    let mut no_content = MessageDraft::new();
    assert!(no_content.apply_text_chunk(&FieldType::OnlineId, "someone"));
    assert!(!no_content.ready());
}

#[test]
fn admin_auth_compares_the_bearer_header() {
    assert!(check_admin_auth(Some("Bearer s3cr3t"), "Bearer s3cr3t").is_ok());
    match check_admin_auth(Some("Bearer wrong"), "Bearer s3cr3t") {
        Err(PSNServerError::Authorization) => {},
        _ => panic!("a wrong header must be an authorization error"),
    }
    match check_admin_auth(None, "Bearer s3cr3t") {
        Err(PSNServerError::Authorization) => {},
        _ => panic!("a missing header must be an authorization error"),
    }
}

#[test]
fn rate_limiter_skips_the_administrative_token() {
    assert!(matches!(
        rate_limit_filter(Some("Bearer admin-tok extras"), "admin-tok"),
        FilterDecision::Skip
    ));
    assert!(matches!(
        rate_limit_filter(Some("Bearer other"), "admin-tok"),
        FilterDecision::Continue
    ));
    assert!(matches!(rate_limit_filter(None, "admin-tok"), FilterDecision::Continue));
}

#[test]
fn offset_parsing() {
    assert_eq!(parse_offset("123"), 123);
    assert_eq!(parse_offset("+42"), 42);
    assert_eq!(parse_offset("0"), 0);
    assert_eq!(parse_offset(""), 0);
    assert_eq!(parse_offset("+"), 0);
    assert_eq!(parse_offset("12a"), 0);
    assert_eq!(parse_offset("-5"), 0);
    assert_eq!(parse_offset("4294967295"), u32::MAX);
    assert_eq!(parse_offset("4294967296"), 0);
    assert_eq!(parse_offset("99999999999999999999"), 0);
}

#[test]
fn error_messages_and_response_codes() {
    assert_eq!(PSNServerError::TimeOut.message(), "Request Timeout");
    assert_eq!(PSNServerError::Authorization.message(), "Authentication Failed");
    assert_eq!(
        PSNServerError::Solver("broke".to_owned()).message(),
        "Solver Error: broke"
    );
    assert_eq!(PSNServerError::PSN("down".to_owned()).message(), "PSN Error: down");
    assert_eq!(
        PSNServerError::General500("oops".to_owned()).message(),
        "Internal Server Error: oops"
    );

    let auth = PSNServerError::Authorization.error_response();
    assert_eq!(auth.status, 203);
    assert_eq!(auth.error, "Authentication Failed");

    let timeout = PSNServerError::TimeOut.error_response();
    assert_eq!(timeout.status, 500);
    assert_eq!(timeout.error, "Request Timeout");

    let solver = PSNServerError::Solver("broke".to_owned()).error_response();
    assert_eq!(solver.status, 500);
    assert_eq!(solver.error, "broke");
}

#[test]
fn shared_state_stores_the_bearer_token() {
    let state = SharedGlobalState::new("tok-1".to_owned(), "key-1".to_owned());
    assert_eq!(state.admin_token(), "Bearer tok-1");
    assert_eq!(state.api_key(), "key-1");
}
