use oscar_bio_dev::backend::api::auth::{
    bearer_token, mock_login_claims, request_token, TOKEN_LIFETIME_SECS,
};
use oscar_bio_dev::backend::api::chat::{
    extract_reply, system_prompt, truncate_message, ChatFailure, MAX_MESSAGE_CHARS,
};
use oscar_bio_dev::backend::api::digital_twin::validate_api_key;
use oscar_bio_dev::frontend::{websocket_url, ChatOutcome, ChatPanel};
use oscar_bio_dev::ids::parse_uuid;
use oscar_bio_dev::text::str_eq;
use oscar_bio_dev::time::Timestamp;
use oscar_bio_dev::validation::{matches_device_id_pattern, validate_length, validate_not_empty};

#[test]
fn mock_login_issues_an_admin_token_for_one_hour() {
    let c = mock_login_claims(1_757_000_000);
    assert_eq!(c.sub, "hmi-dashboard");
    assert_eq!(c.role, "admin");
    assert_eq!(c.exp, 1_757_003_600);
    assert_eq!(TOKEN_LIFETIME_SECS, 3600);
}

#[test]
fn bearer_prefix_is_stripped() {
    assert_eq!(bearer_token("Bearer abc.def.ghi").as_deref(), Some("abc.def.ghi"));
    assert_eq!(bearer_token("Bearer ").as_deref(), Some(""));
    assert_eq!(bearer_token("bearer abc"), None);
    assert_eq!(bearer_token("Bearer"), None);
    assert_eq!(bearer_token("Basic dXNlcjpwYXNz"), None);
    assert_eq!(bearer_token("Bearer ñandú").as_deref(), Some("ñandú"));
}

#[test]
fn request_token_prefers_the_header() {
    assert_eq!(
        request_token(Some("Bearer from-header"), Some("token=from-query")).as_deref(),
        Some("from-header")
    );
}

#[test]
fn request_token_falls_back_to_the_query() {
    assert_eq!(
        request_token(Some("Basic x"), Some("a=1&token=abc%2Edef&b=2")).as_deref(),
        Some("abc.def")
    );
    assert_eq!(request_token(None, Some("token=a+b")).as_deref(), Some("a b"));
    assert_eq!(request_token(None, Some("token=first&token=second")).as_deref(), Some("second"));
    assert_eq!(request_token(None, Some("a=1&b=2")), None);
    assert_eq!(request_token(None, None), None);
    assert_eq!(request_token(Some("Token abc"), None), None);
}

#[test]
fn system_prompt_wraps_the_twin() {
    let p = system_prompt("{\"n1\":{}}");
    assert!(p.starts_with("Your name is EcoTech. You are an expert AI"));
    assert!(p.contains("JSON format:\n{\"n1\":{}}\n\nRules:\n- Act as a conversational assistant."));
    assert!(p.ends_with("suitable for an Agent Terminal UI."));
    assert!(!p.contains("User Question"));
}

#[test]
fn questions_are_cut_to_two_thousand_chars() {
    assert_eq!(MAX_MESSAGE_CHARS, 2000);
    assert_eq!(truncate_message("hello"), "hello");
    assert_eq!(truncate_message(""), "");
    let exact = "a".repeat(2000);
    assert_eq!(truncate_message(&exact), exact);
    let long = "ñ".repeat(2500);
    let cut = truncate_message(&long);
    assert_eq!(cut.chars().count(), 2000);
    assert_eq!(cut, "ñ".repeat(2000));
}

#[test]
fn api_key_is_a_bearer_credential() {
    assert!(validate_api_key(Some("Bearer default_secure_key_123"), "default_secure_key_123"));
    assert!(!validate_api_key(Some("Bearer wrong"), "default_secure_key_123"));
    assert!(!validate_api_key(Some("default_secure_key_123"), "default_secure_key_123"));
    assert!(!validate_api_key(None, "default_secure_key_123"));
    assert!(!validate_api_key(Some("Bearer default_secure_key_1234"), "default_secure_key_123"));
}

#[test]
fn reply_is_the_last_part_of_the_last_candidate() {
    let c = vec![
        vec!["first".to_string()],
        vec!["a".to_string(), "b".to_string()],
    ];
    assert_eq!(extract_reply(Some(c)), "b");
    assert_eq!(extract_reply(Some(vec![])), "No response generated by the AI.");
    assert_eq!(extract_reply(Some(vec![vec![]])), "No response generated by the AI.");
    assert_eq!(extract_reply(None), "No response generated by the AI.");
}

#[test]
fn websocket_url_follows_the_page_protocol() {
    assert_eq!(websocket_url("https:", "example.org"), "wss://example.org/api/ws");
    assert_eq!(websocket_url("http:", "localhost:3000"), "ws://localhost:3000/api/ws");
    assert_eq!(websocket_url("file:", "h"), "ws://h/api/ws");
}

#[test]
fn chat_panel_round_trip() {
    let mut panel = ChatPanel::new();
    assert!(!panel.is_open);
    panel.toggle();
    assert!(panel.is_open);
    panel.input = "   ".to_string();
    assert!(!panel.can_send());
    panel.input = "  status?\t".to_string();
    assert!(panel.can_send());
    panel.begin_send(panel.input.clone());
    assert!(panel.is_loading);
    panel.finish(ChatOutcome::Reply("all nominal".to_string()));
    assert!(!panel.is_loading);
    assert_eq!(panel.input, "");
    panel.begin_send("again".to_string());
    panel.finish(ChatOutcome::ApiError("500 Internal Server Error".to_string()));
    panel.begin_send("more".to_string());
    panel.finish(ChatOutcome::NetworkError("timeout".to_string()));
    panel.begin_send("last".to_string());
    panel.finish(ChatOutcome::MalformedReply);
    let lines: Vec<(&str, &str)> =
        panel.messages.iter().map(|m| (m.sender.as_str(), m.text.as_str())).collect();
    assert_eq!(
        lines,
        vec![
            ("User", "  status?\t"),
            ("AI", "all nominal"),
            ("User", "again"),
            ("System", "API Error: 500 Internal Server Error"),
            ("User", "more"),
            ("System", "Network Error: timeout"),
            ("User", "last"),
            ("System", "Error parsing AI response."),
        ]
    );
    panel.toggle();
    assert!(!panel.is_open);
}

#[test]
fn chat_panel_treats_unicode_white_space_as_empty() {
    let mut panel = ChatPanel::new();
    panel.input = "\u{3000}\u{a0}\n".to_string();
    assert!(!panel.can_send());
    panel.input = "\u{85}\u{1680}\u{2028}\u{205f}\u{200a}\u{b}\u{c}\r".to_string();
    assert!(!panel.can_send());
    panel.input = "\u{200b}".to_string();
    assert!(panel.can_send());
    panel.input = "\u{3000}x\u{3000}".to_string();
    assert!(panel.can_send());
}

#[test]
fn string_equality_compares_chars() {
    assert!(str_eq("https:", "https:"));
    assert!(!str_eq("https:", "http:"));
    assert!(!str_eq("é", "e"));
    assert!(str_eq("", ""));
}

#[test]
fn uuids_parse_in_every_accepted_form() {
    let v = 0x67e55044_10b1_426f_9247_bb680e5fe0c8u128;
    assert_eq!(parse_uuid("67e55044-10b1-426f-9247-bb680e5fe0c8"), Some(v));
    assert_eq!(parse_uuid("67e5504410b1426f9247bb680e5fe0c8"), Some(v));
    assert_eq!(parse_uuid("urn:uuid:67e55044-10b1-426f-9247-bb680e5fe0c8"), Some(v));
    assert_eq!(parse_uuid("67E55044-10B1-426F-9247-BB680E5FE0C8"), Some(v));
    assert_eq!(parse_uuid("67e55044-10b1-426f-9247-bb680e5fe0c"), None);
    assert_eq!(parse_uuid(""), None);
}

#[test]
fn identifier_rules() {
    assert!(validate_length(&"a".to_string()));
    assert!(!validate_length(&String::new()));
    assert!(validate_length(&"z".repeat(64)));
    assert!(!validate_length(&"z".repeat(65)));
    assert!(validate_not_empty(&"x".to_string()));
    assert!(!validate_not_empty(&String::new()));
    assert!(validate_not_empty(&"x".repeat(500)));
    assert!(matches_device_id_pattern(&"sensor-AA:BB:CC:DD:EE:FF".to_string()));
    assert!(matches_device_id_pattern(&"a_b.c".to_string()));
    assert!(!matches_device_id_pattern(&String::new()));
    assert!(!matches_device_id_pattern(&"a/b".to_string()));
    assert!(!matches_device_id_pattern(&"a\nb".to_string()));
}

#[test]
fn millisecond_instants_split_into_seconds_and_nanos() {
    assert_eq!(Timestamp::from_millis(1_500), Some(Timestamp { secs: 1, nanos: 500_000_000 }));
    assert_eq!(Timestamp::from_millis(-1), Some(Timestamp { secs: -1, nanos: 999_000_000 }));
    assert_eq!(Timestamp::from_millis(0), Some(Timestamp::unix_epoch()));
    assert_eq!(Timestamp::from_millis(i64::MAX), None);
    assert_eq!(Timestamp::from_millis(i64::MIN), None);
    assert!(Timestamp::from_millis(8_210_266_876_799_999).is_some());
    assert_eq!(Timestamp::from_millis(8_210_266_876_800_000), None);
    assert!(Timestamp::from_millis(-8_334_601_228_800_000).is_some());
    assert_eq!(Timestamp::from_millis(-8_334_601_228_800_001), None);
    assert_eq!(
        Timestamp::from_millis(1_700_000_000_000),
        Some(Timestamp { secs: 1_700_000_000, nanos: 0 })
    );
    let now = Timestamp::now();
    assert!(now.secs > 1_700_000_000);
    assert!(now.nanos < 1_000_000_000);
}

#[test]
fn chat_failures_map_to_statuses_and_texts() {
    assert_eq!(ChatFailure::Unauthorized.status(), 401);
    assert_eq!(ChatFailure::Unauthorized.message(), "No autorizado - API Key faltante o inválida");
    assert_eq!(ChatFailure::NotConfigured.status(), 500);
    assert_eq!(ChatFailure::NotConfigured.message(), "AI not configured on server");
    assert_eq!(ChatFailure::ClientError.message(), "Client error");
    assert_eq!(ChatFailure::RequestFailed.message(), "AI request failed");
    assert_eq!(ChatFailure::ApiError.status(), 500);
    assert_eq!(ChatFailure::ApiError.message(), "AI API returned an error");
    assert_eq!(ChatFailure::ParseError.message(), "AI Response parse error");
}
