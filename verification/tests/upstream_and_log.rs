use live_translate::directive::{
    decimal, log_line, log_upstream_json, redacted_json, size_label, Directive,
};
use live_translate::upstream::{eq_ignore_ascii_case, handshake_headers, redact_headers, upstream_url};

#[test]
fn upstream_url_exact_text() {
    assert_eq!(
        upstream_url("gpt-4o-realtime-preview"),
        "wss://api.openai.com/v1/realtime?model=gpt-4o-realtime-preview"
    );
}

#[test]
fn handshake_headers_in_order() {
    let h = handshake_headers("KEY", "abc==");
    let want = [
        ("Host", "api.openai.com"),
        ("Upgrade", "websocket"),
        ("Connection", "Upgrade"),
        ("Sec-WebSocket-Version", "13"),
        ("Sec-WebSocket-Key", "abc=="),
        ("Sec-WebSocket-Protocol", "realtime"),
        ("Authorization", "Bearer KEY"),
        ("OpenAI-Beta", "realtime=v1"),
    ];
    assert_eq!(h.len(), want.len());
    for (got, w) in h.iter().zip(want.iter()) {
        assert_eq!(got.0, w.0);
        assert_eq!(got.1, w.1);
    }
}

#[test]
fn ascii_case_is_ignored_and_nothing_else() {
    assert!(eq_ignore_ascii_case("Authorization", "authorization"));
    assert!(eq_ignore_ascii_case("AUTHORIZATION", "authorization"));
    assert!(eq_ignore_ascii_case("", ""));
    assert!(!eq_ignore_ascii_case("authorization", "authorizatio"));
    assert!(!eq_ignore_ascii_case("authorizatiom", "authorization"));
    assert!(!eq_ignore_ascii_case("@", "`"));
    assert!(!eq_ignore_ascii_case("[", "{"));
    assert!(!eq_ignore_ascii_case("É", "é"));
    assert!(eq_ignore_ascii_case("Zé", "zé"));
    for (a, b) in [("Host", "hOST"), ("a-b", "A-B"), ("x", "y"), ("é", "e")] {
        assert_eq!(eq_ignore_ascii_case(a, b), a.eq_ignore_ascii_case(b));
    }
}

#[test]
fn redact_headers_hides_the_credential() {
    let headers = vec![
        ("host".to_string(), Some("api.openai.com".to_string())),
        ("Authorization".to_string(), Some("Bearer SECRET".to_string())),
        ("authorization".to_string(), None),
        ("x-raw".to_string(), None),
        ("authorization2".to_string(), Some("kept".to_string())),
    ];
    let shown = redact_headers(&headers);
    assert_eq!(
        shown,
        vec![
            ("host".to_string(), "api.openai.com".to_string()),
            ("Authorization".to_string(), "<redacted>".to_string()),
            ("authorization".to_string(), "<redacted>".to_string()),
            ("x-raw".to_string(), "<bin>".to_string()),
            ("authorization2".to_string(), "kept".to_string()),
        ]
    );
    assert!(redact_headers(&Vec::new()).is_empty());
}

#[test]
fn redacted_handshake_headers_keep_no_key() {
    let plain: Vec<(String, Option<String>)> =
        handshake_headers("TOPSECRET", "k").into_iter().map(|(n, v)| (n, Some(v))).collect();
    let shown = redact_headers(&plain);
    assert_eq!(shown.len(), 8);
    assert!(shown.iter().all(|(_, v)| !v.contains("TOPSECRET")));
    assert_eq!(shown[6], ("Authorization".to_string(), "<redacted>".to_string()));
}

#[test]
fn decimal_text() {
    assert_eq!(decimal(0), "0");
    assert_eq!(decimal(7), "7");
    assert_eq!(decimal(10), "10");
    assert_eq!(decimal(6536), "6536");
    assert_eq!(decimal(1234567890), "1234567890");
    assert_eq!(decimal(usize::MAX), usize::MAX.to_string());
}

#[test]
fn size_label_counts_bytes() {
    assert_eq!(size_label(""), "<base64:0 chars>");
    assert_eq!(size_label("AAAA"), "<base64:4 chars>");
    assert_eq!(size_label("aGVsbG8="), "<base64:8 chars>");
    assert_eq!(size_label("\u{e9}"), "<base64:2 chars>");
    assert_eq!(size_label("\u{65e5}\u{672c}"), "<base64:6 chars>");
    let long = "A".repeat(6536);
    assert_eq!(size_label(&long), "<base64:6536 chars>");
}

#[test]
fn redacted_json_replaces_only_the_audio() {
    let d = Directive::AudioAppend { audio: "AAAA".into() };
    assert_eq!(
        redacted_json(&d),
        "{\"type\":\"input_audio_buffer.append\",\"audio\":\"<base64:4 chars>\"}"
    );
    assert_eq!(d.to_json(), "{\"type\":\"input_audio_buffer.append\",\"audio\":\"AAAA\"}");
    assert_eq!(redacted_json(&Directive::TurnStart), Directive::TurnStart.to_json());
    let u = Directive::SessionUpdate { instructions: "i".into(), language: "id".into() };
    assert_eq!(redacted_json(&u), u.to_json());
}

#[test]
fn log_line_prefers_the_indented_text() {
    assert_eq!(log_line("l", "{}", Some("{\n}".to_string())), "\u{2192} l {\n}");
    assert_eq!(log_line("l", "{}", None), "\u{2192} l {}");
    assert_eq!(log_line("", "c", None), "\u{2192}  c");
}

#[test]
fn log_line_hides_audio_payload() {
    let d = Directive::AudioAppend { audio: "AAAA".into() };
    assert_eq!(
        log_upstream_json("input_audio_buffer.append", &d),
        "\u{2192} input_audio_buffer.append {\n  \"audio\": \"<base64:4 chars>\",\n  \"type\": \"input_audio_buffer.append\"\n}"
    );
    let wide = Directive::AudioAppend { audio: "\u{e9}".into() };
    let line = log_upstream_json("x", &wide);
    assert!(line.contains("<base64:2 chars>"));
    assert!(!line.contains('\u{e9}'));
}

#[test]
fn log_line_is_the_pretty_text_of_the_redacted_directive() {
    let directives = [
        Directive::AudioAppend { audio: "aGVsbG8=".into() },
        Directive::SessionUpdate { instructions: "say \"hi\"".into(), language: "ja".into() },
        Directive::BufferCommit,
        Directive::TurnStart,
        Directive::TurnCancel,
    ];
    for d in directives.iter() {
        let line = log_upstream_json("label", d);
        let body = line.strip_prefix("\u{2192} label ").unwrap();
        let shown: serde_json::Value = serde_json::from_str(body).unwrap();
        let want: serde_json::Value = serde_json::from_str(&redacted_json(d)).unwrap();
        assert_eq!(shown, want);
        assert_eq!(body, serde_json::to_string_pretty(&want).unwrap());
        assert!(!body.contains("aGVsbG8="));
    }
}

#[test]
fn log_line_shows_other_directives_whole() {
    assert_eq!(
        log_upstream_json("response.cancel", &Directive::TurnCancel),
        "\u{2192} response.cancel {\n  \"type\": \"response.cancel\"\n}"
    );
    assert_eq!(
        log_upstream_json("response.create", &Directive::TurnStart),
        "\u{2192} response.create {\n  \"response\": {\n    \"conversation\": \"none\",\n    \"modalities\": [\n      \"text\"\n    ],\n    \"temperature\": 0.6\n  },\n  \"type\": \"response.create\"\n}"
    );
}
