use live_translate::directive::{instructions_for, json_instr, pair_names, Directive};

#[test]
fn json_instr_exact_text() {
    let got = json_instr("Indonesian", "English", "Budi");
    let want = "You are a real-time translator for Budi. First transcribe in Indonesian. \
Then translate to English only. Respond EXACTLY one JSON: \
{\"src\":\"<Indonesian transcript>\",\"tgt\":\"<English translation>\"}. \
If English is 日本語, use Japanese script (かな/漢字), no romaji, no English.";
    assert_eq!(got, want);
}

#[test]
fn json_instr_places_each_argument() {
    let got = json_instr("S", "T", "N");
    assert_eq!(
        got,
        "You are a real-time translator for N. First transcribe in S. Then translate to T only. Respond EXACTLY one JSON: {\"src\":\"<S transcript>\",\"tgt\":\"<T translation>\"}. If T is 日本語, use Japanese script (かな/漢字), no romaji, no English."
    );
}

#[test]
fn pair_table() {
    assert_eq!(pair_names("id-ja"), ("id", "Indonesian", "日本語"));
    assert_eq!(pair_names("ja-id"), ("ja", "日本語", "Indonesian"));
    assert_eq!(pair_names("id-en"), ("id", "Indonesian", "English"));
    assert_eq!(pair_names("en-id"), ("en", "English", "Indonesian"));
    assert_eq!(pair_names("id-ko"), ("id", "Indonesian", "한국어"));
    assert_eq!(pair_names("ko-id"), ("ko", "한국어", "Indonesian"));
    assert_eq!(pair_names("id-ar"), ("id", "Indonesian", "العربية"));
    assert_eq!(pair_names("ar-id"), ("ar", "العربية", "Indonesian"));
    assert_eq!(pair_names("id-de"), ("id", "Indonesian", "Deutsch"));
    assert_eq!(pair_names("de-id"), ("de", "Deutsch", "Indonesian"));
    assert_eq!(pair_names("id-fr"), ("id", "Indonesian", "Français"));
    assert_eq!(pair_names("fr-id"), ("fr", "Français", "Indonesian"));
    assert_eq!(pair_names("id-nl"), ("id", "Indonesian", "Nederlands"));
    assert_eq!(pair_names("nl-id"), ("nl", "Nederlands", "Indonesian"));
    assert_eq!(pair_names("id-ru"), ("id", "Indonesian", "Русский"));
    assert_eq!(pair_names("ru-id"), ("ru", "Русский", "Indonesian"));
    assert_eq!(pair_names("id-es"), ("id", "Indonesian", "Español"));
    assert_eq!(pair_names("es-id"), ("es", "Español", "Indonesian"));
}

#[test]
fn unknown_pair_falls_back_to_indonesian_english() {
    for code in ["", "en-ja", "xx-yy", "ID-EN", "id-en ", "id_en"] {
        assert_eq!(pair_names(code), ("id", "Indonesian", "English"));
        let (lang, instr) = instructions_for(code, "A");
        assert_eq!(lang, "id");
        assert_eq!(instr, json_instr("Indonesian", "English", "A"));
    }
}

#[test]
fn instructions_for_japanese_source() {
    let (lang, instr) = instructions_for("ja-id", "Sato");
    assert_eq!(lang, "ja");
    assert_eq!(instr, json_instr("日本語", "Indonesian", "Sato"));
    assert!(instr.contains("First transcribe in 日本語."));
    assert!(instr.contains("Then translate to Indonesian only."));
}

#[test]
fn fixed_directives_json_text() {
    assert_eq!(Directive::BufferCommit.to_json(), "{\"type\":\"input_audio_buffer.commit\"}");
    assert_eq!(Directive::TurnCancel.to_json(), "{\"type\":\"response.cancel\"}");
    assert_eq!(
        Directive::TurnStart.to_json(),
        "{\"type\":\"response.create\",\"response\":{\"modalities\":[\"text\"],\"conversation\":\"none\",\"temperature\":0.6}}"
    );
}

#[test]
fn turn_start_json_reads_back() {
    let v: serde_json::Value = serde_json::from_str(&Directive::TurnStart.to_json()).unwrap();
    let r = v.get("response").unwrap();
    assert_eq!(v.get("type").and_then(|x| x.as_str()), Some("response.create"));
    assert_eq!(r.get("conversation").and_then(|x| x.as_str()), Some("none"));
    assert_eq!(r.get("temperature").and_then(|x| x.as_f64()), Some(0.6));
    assert_eq!(r.get("modalities").and_then(|m| m.get(0)).and_then(|x| x.as_str()), Some("text"));
    assert_eq!(r.get("modalities").and_then(|m| m.as_array()).map(|m| m.len()), Some(1));
}

#[test]
fn audio_append_json_text() {
    let d = Directive::AudioAppend { audio: "aGVsbG8=".into() };
    assert_eq!(d.to_json(), "{\"type\":\"input_audio_buffer.append\",\"audio\":\"aGVsbG8=\"}");
}

#[test]
fn session_update_json_text() {
    let d = Directive::SessionUpdate { instructions: "say \"hi\"".into(), language: "id".into() };
    assert_eq!(
        d.to_json(),
        "{\"type\":\"session.update\",\"session\":{\"instructions\":\"say \\\"hi\\\"\",\"modalities\":[\"text\"],\"input_audio_transcription\":{\"model\":\"gpt-4o-mini-transcribe\",\"language\":\"id\"}}}"
    );
}

#[test]
fn session_update_json_reads_back() {
    let (lang, instr) = instructions_for("id-ja", "Rina \"R\"");
    let d = Directive::SessionUpdate { instructions: instr.clone(), language: lang.to_string() };
    let v: serde_json::Value = serde_json::from_str(&d.to_json()).unwrap();
    let s = v.get("session").unwrap();
    assert_eq!(v.get("type").and_then(|x| x.as_str()), Some("session.update"));
    assert_eq!(s.get("instructions").and_then(|x| x.as_str()), Some(instr.as_str()));
    let t = s.get("input_audio_transcription").unwrap();
    assert_eq!(t.get("language").and_then(|x| x.as_str()), Some("id"));
    assert_eq!(t.get("model").and_then(|x| x.as_str()), Some("gpt-4o-mini-transcribe"));
    assert!(s.get("turn_detection").is_none());
}

#[test]
fn directive_labels() {
    let u = Directive::SessionUpdate { instructions: "i".into(), language: "id".into() };
    let a = Directive::AudioAppend { audio: "AAAA".into() };
    assert_eq!(u.label(), "session.update");
    assert_eq!(a.label(), "input_audio_buffer.append");
    assert_eq!(Directive::BufferCommit.label(), "input_audio_buffer.commit");
    assert_eq!(Directive::TurnStart.label(), "response.create");
    assert_eq!(Directive::TurnCancel.label(), "response.cancel");
}

#[test]
fn directive_label_is_the_type_member() {
    let all = [
        Directive::SessionUpdate { instructions: "i".into(), language: "id".into() },
        Directive::AudioAppend { audio: "AAAA".into() },
        Directive::BufferCommit,
        Directive::TurnStart,
        Directive::TurnCancel,
    ];
    for d in all.iter() {
        let v: serde_json::Value = serde_json::from_str(&d.to_json()).unwrap();
        assert_eq!(v.get("type").and_then(|x| x.as_str()), Some(d.label()));
    }
}
