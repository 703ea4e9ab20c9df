use live_translate::adapter::Adapter;
use live_translate::event::{classify, classify_parts, OutwardEvent, UpstreamEvent};

fn delta_text(ev: UpstreamEvent) -> String {
    match ev {
        UpstreamEvent::TextDelta(d) => d,
        other => panic!("not a delta: {:?}", other),
    }
}

fn partial_text(ev: Option<OutwardEvent>) -> String {
    match ev {
        Some(OutwardEvent::Partial { text }) => text,
        other => panic!("not a partial: {:?}", other),
    }
}

fn final_text(ev: Option<OutwardEvent>) -> String {
    match ev {
        Some(OutwardEvent::Final { text }) => text,
        other => panic!("not a final: {:?}", other),
    }
}

#[test]
fn classify_turn_created() {
    assert!(matches!(classify("{\"type\":\"response.created\"}"), UpstreamEvent::TurnCreated));
}

#[test]
fn classify_flat_delta_shapes() {
    let a = classify("{\"type\":\"response.output_text.delta\",\"delta\":\"Hel\"}");
    assert_eq!(delta_text(a), "Hel");
    let b = classify("{\"type\":\"response.text.delta\",\"delta\":\"lo \\\"x\\\"\"}");
    assert_eq!(delta_text(b), "lo \"x\"");
}

#[test]
fn classify_flat_delta_without_string_is_ignored() {
    assert!(matches!(classify("{\"type\":\"response.text.delta\"}"), UpstreamEvent::Ignored));
    assert!(matches!(
        classify("{\"type\":\"response.text.delta\",\"delta\":5}"),
        UpstreamEvent::Ignored
    ));
    assert!(matches!(
        classify("{\"type\":\"response.text.delta\",\"delta\":{\"type\":\"output_text.delta\",\"text\":\"x\"}}"),
        UpstreamEvent::Ignored
    ));
}

#[test]
fn classify_nested_delta_shape() {
    let a = classify(
        "{\"type\":\"response.delta\",\"delta\":{\"type\":\"output_text.delta\",\"text\":\"abc\"}}",
    );
    assert_eq!(delta_text(a), "abc");
    assert!(matches!(
        classify("{\"type\":\"response.delta\",\"delta\":{\"type\":\"audio.delta\",\"text\":\"abc\"}}"),
        UpstreamEvent::Ignored
    ));
    assert!(matches!(
        classify("{\"type\":\"response.delta\",\"delta\":{\"type\":\"output_text.delta\"}}"),
        UpstreamEvent::Ignored
    ));
    assert!(matches!(
        classify("{\"type\":\"response.delta\",\"delta\":\"abc\"}"),
        UpstreamEvent::Ignored
    ));
}

#[test]
fn classify_done_tags() {
    for tag in [
        "response.output_text.done",
        "response.completed",
        "response.text.done",
        "response.done",
    ] {
        let frame = format!("{{\"type\":\"{}\"}}", tag);
        assert!(matches!(classify(&frame), UpstreamEvent::TurnDone));
    }
}

#[test]
fn classify_error_keeps_payload() {
    let ev = classify("{ \"type\" : \"error\", \"error\" : { \"message\" : \"bad\" } }");
    match ev {
        UpstreamEvent::Failure(p) => {
            let v: serde_json::Value = serde_json::from_str(&p).unwrap();
            assert_eq!(v.get("type").and_then(|x| x.as_str()), Some("error"));
            assert_eq!(
                v.get("error").and_then(|e| e.get("message")).and_then(|x| x.as_str()),
                Some("bad")
            );
            assert!(!p.contains(' '));
        }
        other => panic!("not a failure: {:?}", other),
    }
}

#[test]
fn classify_other_input_is_ignored() {
    assert!(matches!(classify("{\"type\":\"session.created\"}"), UpstreamEvent::Ignored));
    assert!(matches!(classify("{\"delta\":\"x\"}"), UpstreamEvent::Ignored));
    assert!(matches!(classify("{\"type\":7}"), UpstreamEvent::Ignored));
    assert!(matches!(classify("not json"), UpstreamEvent::Ignored));
    assert!(matches!(classify(""), UpstreamEvent::Ignored));
    assert!(matches!(classify("[\"response.created\"]"), UpstreamEvent::Ignored));
}

#[test]
fn classify_parts_on_given_fields() {
    let s = |x: &str| Some(x.to_string());
    assert!(matches!(classify_parts(None, s("d"), None, None, s("{}")), UpstreamEvent::Ignored));
    assert!(matches!(
        classify_parts(s("response.created"), None, None, None, None),
        UpstreamEvent::TurnCreated
    ));
    assert_eq!(
        delta_text(classify_parts(s("response.text.delta"), s("d"), s("x"), s("y"), None)),
        "d"
    );
    assert_eq!(
        delta_text(classify_parts(s("response.delta"), s("d"), s("output_text.delta"), s("y"), None)),
        "y"
    );
    assert!(matches!(
        classify_parts(s("response.delta"), s("d"), s("other"), s("y"), None),
        UpstreamEvent::Ignored
    ));
    assert!(matches!(
        classify_parts(s("response.done"), None, None, None, None),
        UpstreamEvent::TurnDone
    ));
    assert!(matches!(classify_parts(s("error"), None, None, None, None), UpstreamEvent::Ignored));
    match classify_parts(s("error"), None, None, None, s("{\"type\":\"error\"}")) {
        UpstreamEvent::Failure(p) => assert_eq!(p, "{\"type\":\"error\"}"),
        other => panic!("not a failure: {:?}", other),
    }
}

#[test]
fn deltas_then_done_yield_one_final_with_concatenation() {
    let mut a = Adapter::new();
    assert_eq!(partial_text(a.apply(UpstreamEvent::TextDelta("Hello".into()))), "Hello");
    assert_eq!(partial_text(a.apply(UpstreamEvent::TextDelta(", ".into()))), "Hello, ");
    assert_eq!(partial_text(a.apply(UpstreamEvent::TextDelta("world".into()))), "Hello, world");
    assert_eq!(a.text(), "Hello, world");
    assert_eq!(final_text(a.apply(UpstreamEvent::TurnDone)), "Hello, world");
    assert_eq!(a.text(), "");
    assert!(a.apply(UpstreamEvent::TurnDone).is_none());
}

#[test]
fn done_on_empty_buffer_yields_nothing() {
    let mut a = Adapter::new();
    assert!(a.apply(UpstreamEvent::TurnDone).is_none());
    assert_eq!(partial_text(a.apply(UpstreamEvent::TextDelta(String::new()))), "");
    assert!(a.apply(UpstreamEvent::TurnDone).is_none());
}

#[test]
fn mixed_delta_shapes_accumulate_in_order() {
    let mut a = Adapter::new();
    let frames = [
        "{\"type\":\"response.output_text.delta\",\"delta\":\"one \"}",
        "{\"type\":\"response.delta\",\"delta\":{\"type\":\"output_text.delta\",\"text\":\"two \"}}",
        "{\"type\":\"response.text.delta\",\"delta\":\"three\"}",
    ];
    let mut last = String::new();
    for f in frames {
        last = partial_text(a.apply(classify(f)));
    }
    assert_eq!(last, "one two three");
    assert_eq!(final_text(a.apply(classify("{\"type\":\"response.done\"}"))), "one two three");
}

#[test]
fn failure_discards_buffer_without_final() {
    let mut a = Adapter::new();
    let _ = a.apply(UpstreamEvent::TextDelta("lost".into()));
    match a.apply(UpstreamEvent::Failure("{\"type\":\"error\"}".into())) {
        Some(OutwardEvent::Error { data }) => assert_eq!(data, "{\"type\":\"error\"}"),
        other => panic!("not an error: {:?}", other),
    }
    assert_eq!(a.text(), "");
    assert!(a.apply(UpstreamEvent::TurnDone).is_none());
}

#[test]
fn ignored_and_created_leave_buffer_alone() {
    let mut a = Adapter::new();
    let _ = a.apply(UpstreamEvent::TextDelta("keep".into()));
    assert!(a.apply(UpstreamEvent::Ignored).is_none());
    assert!(a.apply(UpstreamEvent::TurnCreated).is_none());
    assert_eq!(a.text(), "keep");
}

#[test]
fn outward_event_json_text() {
    let p = OutwardEvent::Partial { text: "hi".into() };
    assert_eq!(p.to_json(), "{\"type\":\"partial\",\"text\":\"hi\"}");
    let f = OutwardEvent::Final { text: "a \"b\"\n\\c".into() };
    assert_eq!(f.to_json(), "{\"type\":\"final\",\"text\":\"a \\\"b\\\"\\n\\\\c\"}");
    let e = OutwardEvent::Error { data: "{\"type\":\"error\",\"code\":7}".into() };
    assert_eq!(e.to_json(), "{\"type\":\"error\",\"data\":{\"type\":\"error\",\"code\":7}}");
}

#[test]
fn outward_event_json_reads_back() {
    let f = OutwardEvent::Final { text: "日本語 \"quoted\"\ttab".into() };
    let v: serde_json::Value = serde_json::from_str(&f.to_json()).unwrap();
    assert_eq!(v.get("type").and_then(|x| x.as_str()), Some("final"));
    assert_eq!(v.get("text").and_then(|x| x.as_str()), Some("日本語 \"quoted\"\ttab"));
}
