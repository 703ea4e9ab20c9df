//! What the bridge tells the upstream engine: the translation instructions
//! of a language pair, and the directives as JSON text.

use vstd::prelude::*;
use crate::wire::{json_pretty, json_quoted, quote, read_pretty, same_text, text_of};

verus! {

/// The instruction text for the speaker `name`, whose speech is in the
/// language called `src` and is to be rendered in the language called `tgt`.
pub open spec fn json_instr_spec(src: Seq<char>, tgt: Seq<char>, name: Seq<char>) -> Seq<char> {
    "You are a real-time translator for "@ + name + ". First transcribe in "@ + src
        + ". Then translate to "@ + tgt + " only. Respond EXACTLY one JSON: {\"src\":\"<"@ + src
        + " transcript>\",\"tgt\":\"<"@ + tgt + " translation>\"}. If "@ + tgt
        + " is 日本語, use Japanese script (かな/漢字), no romaji, no English."@
}

/// The instruction text for the speaker `name`, whose speech is in the
/// language called `src_name` and is to be rendered in the language called
/// `tgt_label_native`: transcribe, translate into the target only, answer
/// with one JSON object of the members `src` and `tgt`.
pub fn json_instr(src_name: &str, tgt_label_native: &str, name: &str) -> (instr: String)
    ensures
        instr@ == json_instr_spec(src_name@, tgt_label_native@, name@),
{
    String::from_str("You are a real-time translator for ").concat(name).concat(
        ". First transcribe in ",
    ).concat(src_name).concat(". Then translate to ").concat(tgt_label_native).concat(
        " only. Respond EXACTLY one JSON: {\"src\":\"<",
    ).concat(src_name).concat(" transcript>\",\"tgt\":\"<").concat(tgt_label_native).concat(
        " translation>\"}. If ",
    ).concat(tgt_label_native).concat(
        " is 日本語, use Japanese script (かな/漢字), no romaji, no English.",
    )
}

/// What a language-pair code stands for: the tag of the source language and
/// the names of the source and the target language, as the instructions
/// write them. A pair joins Indonesian and one partner language in either
/// direction; any other code stands for Indonesian to English.
pub open spec fn pair_spec(pair: Seq<char>) -> (Seq<char>, Seq<char>, Seq<char>) {
    if pair == "id-ja"@ {
        ("id"@, "Indonesian"@, "日本語"@)
    } else if pair == "ja-id"@ {
        ("ja"@, "日本語"@, "Indonesian"@)
    } else if pair == "id-en"@ {
        ("id"@, "Indonesian"@, "English"@)
    } else if pair == "en-id"@ {
        ("en"@, "English"@, "Indonesian"@)
    } else if pair == "id-ko"@ {
        ("id"@, "Indonesian"@, "한국어"@)
    } else if pair == "ko-id"@ {
        ("ko"@, "한국어"@, "Indonesian"@)
    } else if pair == "id-ar"@ {
        ("id"@, "Indonesian"@, "العربية"@)
    } else if pair == "ar-id"@ {
        ("ar"@, "العربية"@, "Indonesian"@)
    } else if pair == "id-de"@ {
        ("id"@, "Indonesian"@, "Deutsch"@)
    } else if pair == "de-id"@ {
        ("de"@, "Deutsch"@, "Indonesian"@)
    } else if pair == "id-fr"@ {
        ("id"@, "Indonesian"@, "Français"@)
    } else if pair == "fr-id"@ {
        ("fr"@, "Français"@, "Indonesian"@)
    } else if pair == "id-nl"@ {
        ("id"@, "Indonesian"@, "Nederlands"@)
    } else if pair == "nl-id"@ {
        ("nl"@, "Nederlands"@, "Indonesian"@)
    } else if pair == "id-ru"@ {
        ("id"@, "Indonesian"@, "Русский"@)
    } else if pair == "ru-id"@ {
        ("ru"@, "Русский"@, "Indonesian"@)
    } else if pair == "id-es"@ {
        ("id"@, "Indonesian"@, "Español"@)
    } else if pair == "es-id"@ {
        ("es"@, "Español"@, "Indonesian"@)
    } else {
        ("id"@, "Indonesian"@, "English"@)
    }
}

/// Looks a language-pair code up: the tag of the source language and the
/// names of the source and the target language.
pub fn pair_names(pair: &str) -> (names: (&'static str, &'static str, &'static str))
    ensures
        (names.0@, names.1@, names.2@) == pair_spec(pair@),
{
    if same_text(pair, "id-ja") {
        ("id", "Indonesian", "日本語")
    } else if same_text(pair, "ja-id") {
        ("ja", "日本語", "Indonesian")
    } else if same_text(pair, "id-en") {
        ("id", "Indonesian", "English")
    } else if same_text(pair, "en-id") {
        ("en", "English", "Indonesian")
    } else if same_text(pair, "id-ko") {
        ("id", "Indonesian", "한국어")
    } else if same_text(pair, "ko-id") {
        ("ko", "한국어", "Indonesian")
    } else if same_text(pair, "id-ar") {
        ("id", "Indonesian", "العربية")
    } else if same_text(pair, "ar-id") {
        ("ar", "العربية", "Indonesian")
    } else if same_text(pair, "id-de") {
        ("id", "Indonesian", "Deutsch")
    } else if same_text(pair, "de-id") {
        ("de", "Deutsch", "Indonesian")
    } else if same_text(pair, "id-fr") {
        ("id", "Indonesian", "Français")
    } else if same_text(pair, "fr-id") {
        ("fr", "Français", "Indonesian")
    } else if same_text(pair, "id-nl") {
        ("id", "Indonesian", "Nederlands")
    } else if same_text(pair, "nl-id") {
        ("nl", "Nederlands", "Indonesian")
    } else if same_text(pair, "id-ru") {
        ("id", "Indonesian", "Русский")
    } else if same_text(pair, "ru-id") {
        ("ru", "Русский", "Indonesian")
    } else if same_text(pair, "id-es") {
        ("id", "Indonesian", "Español")
    } else if same_text(pair, "es-id") {
        ("es", "Español", "Indonesian")
    } else {
        ("id", "Indonesian", "English")
    }
}

/// The tag of the source language of a pair.
pub open spec fn source_lang_spec(pair: Seq<char>) -> Seq<char> {
    pair_spec(pair).0
}

/// The instruction text of a pair for the speaker `name`.
pub open spec fn instructions_spec(pair: Seq<char>, name: Seq<char>) -> Seq<char> {
    json_instr_spec(pair_spec(pair).1, pair_spec(pair).2, name)
}

/// The translation directive of a language pair for the speaker `name`: the
/// tag of the source language, as a hint for transcription, and the
/// instruction text.
pub fn instructions_for(pair: &str, name: &str) -> (directive: (&'static str, String))
    ensures
        directive.0@ == source_lang_spec(pair@),
        directive.1@ == instructions_spec(pair@, name@),
{
    let names = pair_names(pair);
    (names.0, json_instr(names.1, names.2, name))
}

/// A message for the upstream engine.
#[derive(Clone, Debug)]
pub enum Directive {
    /// Configures the session: the instructions, text as the only output,
    /// and the transcription model with a hint of the source language.
    SessionUpdate { instructions: String, language: String },
    /// Appends audio, given as base64 text, to the engine's buffer.
    AudioAppend { audio: String },
    /// Commits the buffered audio.
    BufferCommit,
    /// Starts a turn: text only, no conversation context, fixed temperature.
    TurnStart,
    /// Cancels the turn in flight.
    TurnCancel,
}

/// The mathematical value of a `Directive`.
pub enum DirectiveView {
    SessionUpdate { instructions: Seq<char>, language: Seq<char> },
    AudioAppend { audio: Seq<char> },
    BufferCommit,
    TurnStart,
    TurnCancel,
}

impl View for Directive {
    type V = DirectiveView;

    open spec fn view(&self) -> DirectiveView {
        match self {
            Directive::SessionUpdate { instructions, language } => DirectiveView::SessionUpdate {
                instructions: instructions@,
                language: language@,
            },
            Directive::AudioAppend { audio } => DirectiveView::AudioAppend { audio: audio@ },
            Directive::BufferCommit => DirectiveView::BufferCommit,
            Directive::TurnStart => DirectiveView::TurnStart,
            Directive::TurnCancel => DirectiveView::TurnCancel,
        }
    }
}

/// The name of a directive's kind, as its `type` member and the log write
/// it.
pub open spec fn directive_label(d: DirectiveView) -> Seq<char> {
    match d {
        DirectiveView::SessionUpdate { .. } => "session.update"@,
        DirectiveView::AudioAppend { .. } => "input_audio_buffer.append"@,
        DirectiveView::BufferCommit => "input_audio_buffer.commit"@,
        DirectiveView::TurnStart => "response.create"@,
        DirectiveView::TurnCancel => "response.cancel"@,
    }
}

/// The JSON text of a directive.
pub open spec fn directive_json(d: DirectiveView) -> Seq<char> {
    match d {
        DirectiveView::SessionUpdate { instructions, language } =>
            "{\"type\":\"session.update\",\"session\":{\"instructions\":"@ + json_quoted(instructions)
            + ",\"modalities\":[\"text\"],\"input_audio_transcription\":{\"model\":\"gpt-4o-mini-transcribe\",\"language\":"@
            + json_quoted(language) + "}}}"@,
        DirectiveView::AudioAppend { audio } => "{\"type\":\"input_audio_buffer.append\",\"audio\":"@
            + json_quoted(audio) + "}"@,
        DirectiveView::BufferCommit => "{\"type\":\"input_audio_buffer.commit\"}"@,
        DirectiveView::TurnStart =>
            "{\"type\":\"response.create\",\"response\":{\"modalities\":[\"text\"],\"conversation\":\"none\",\"temperature\":0.6}}"@,
        DirectiveView::TurnCancel => "{\"type\":\"response.cancel\"}"@,
    }
}

impl Directive {
    /// The name of the directive's kind, as its `type` member and the log
    /// write it.
    pub fn label(&self) -> (label: &'static str)
        ensures
            label@ == directive_label(self@),
    {
        match self {
            Directive::SessionUpdate { .. } => "session.update",
            Directive::AudioAppend { .. } => "input_audio_buffer.append",
            Directive::BufferCommit => "input_audio_buffer.commit",
            Directive::TurnStart => "response.create",
            Directive::TurnCancel => "response.cancel",
        }
    }

    /// The JSON text that is sent to the upstream engine.
    pub fn to_json(&self) -> (json: String)
        ensures
            json@ == directive_json(self@),
    {
        match self {
            Directive::SessionUpdate { instructions, language } => {
                let instr = quote(instructions.as_str());
                let lang = quote(language.as_str());
                String::from_str(
                    "{\"type\":\"session.update\",\"session\":{\"instructions\":",
                ).concat(instr.as_str()).concat(
                    ",\"modalities\":[\"text\"],\"input_audio_transcription\":{\"model\":\"gpt-4o-mini-transcribe\",\"language\":",
                ).concat(lang.as_str()).concat("}}}")
            },
            Directive::AudioAppend { audio } => {
                let payload = quote(audio.as_str());
                String::from_str("{\"type\":\"input_audio_buffer.append\",\"audio\":").concat(
                    payload.as_str(),
                ).concat("}")
            },
            Directive::BufferCommit => String::from_str("{\"type\":\"input_audio_buffer.commit\"}"),
            Directive::TurnStart => String::from_str(
                "{\"type\":\"response.create\",\"response\":{\"modalities\":[\"text\"],\"conversation\":\"none\",\"temperature\":0.6}}",
            ),
            Directive::TurnCancel => String::from_str("{\"type\":\"response.cancel\"}"),
        }
    }
}

/// The text of a decimal digit.
pub open spec fn digit_spec(d: nat) -> Seq<char> {
    if d == 0 {
        "0"@
    } else if d == 1 {
        "1"@
    } else if d == 2 {
        "2"@
    } else if d == 3 {
        "3"@
    } else if d == 4 {
        "4"@
    } else if d == 5 {
        "5"@
    } else if d == 6 {
        "6"@
    } else if d == 7 {
        "7"@
    } else if d == 8 {
        "8"@
    } else {
        "9"@
    }
}

/// The decimal text of a number, without leading zeros.
pub open spec fn decimal_spec(n: nat) -> Seq<char>
    decreases n,
{
    if n < 10 {
        digit_spec(n)
    } else {
        decimal_spec(n / 10) + digit_spec(n % 10)
    }
}

fn digit(d: usize) -> (text: &'static str)
    requires
        d < 10,
    ensures
        text@ == digit_spec(d as nat),
{
    if d == 0 {
        "0"
    } else if d == 1 {
        "1"
    } else if d == 2 {
        "2"
    } else if d == 3 {
        "3"
    } else if d == 4 {
        "4"
    } else if d == 5 {
        "5"
    } else if d == 6 {
        "6"
    } else if d == 7 {
        "7"
    } else if d == 8 {
        "8"
    } else {
        "9"
    }
}

/// The decimal text of a number, without leading zeros.
pub fn decimal(n: usize) -> (text: String)
    ensures
        text@ == decimal_spec(n as nat),
    decreases n,
{
    if n < 10 {
        String::from_str(digit(n))
    } else {
        decimal(n / 10).concat(digit(n % 10))
    }
}

/// The number of bytes that a text takes in UTF-8.
pub open spec fn byte_len(text: Seq<char>) -> nat {
    vstd::utf8::encode_utf8(text).len()
}

/// What is logged in place of an audio payload: its size in bytes.
pub open spec fn size_label_spec(audio: Seq<char>) -> Seq<char> {
    "<base64:"@ + decimal_spec(byte_len(audio)) + " chars>"@
}

/// A directive as it is logged: an audio payload gives way to its size,
/// anything else is kept.
pub open spec fn redacted(d: DirectiveView) -> DirectiveView {
    match d {
        DirectiveView::AudioAppend { audio } => DirectiveView::AudioAppend {
            audio: size_label_spec(audio),
        },
        _ => d,
    }
}

/// The log line for the label `label` and a JSON text, given the text in
/// compact form and, where there is one, in indented form: an arrow, the
/// label, and the indented text, or the compact one for want of it.
pub open spec fn log_line_spec(label: Seq<char>, compact: Seq<char>, pretty: Option<Seq<char>>) -> Seq<
    char,
> {
    "\u{2192} "@ + label + " "@ + match pretty {
        Some(p) => p,
        None => compact,
    }
}

/// The log line of a directive that is sent upstream under the label
/// `label`: the directive is logged as `redacted` says, in indented form.
pub open spec fn log_upstream_spec(label: Seq<char>, d: DirectiveView) -> Seq<char> {
    log_line_spec(label, directive_json(redacted(d)), json_pretty(directive_json(redacted(d))))
}

/// What is logged in place of an audio payload: its size in bytes.
pub fn size_label(audio: &str) -> (label: String)
    ensures
        label@ == size_label_spec(audio@),
{
    let size = decimal(audio.as_bytes().len());
    String::from_str("<base64:").concat(size.as_str()).concat(" chars>")
}

/// The compact JSON text of a directive as it is logged.
pub fn redacted_json(d: &Directive) -> (json: String)
    ensures
        json@ == directive_json(redacted(d@)),
{
    match d {
        Directive::AudioAppend { audio } => {
            let shown = Directive::AudioAppend { audio: size_label(audio.as_str()) };
            shown.to_json()
        },
        _ => d.to_json(),
    }
}

/// The log line for the label `label` and a JSON text, given the text in
/// compact form and, where there is one, in indented form.
pub fn log_line(label: &str, compact: &str, pretty: Option<String>) -> (line: String)
    ensures
        line@ == log_line_spec(label@, compact@, text_of(pretty)),
{
    let head = String::from_str("\u{2192} ").concat(label).concat(" ");
    match pretty {
        Some(p) => head.concat(p.as_str()),
        None => head.concat(compact),
    }
}

/// The log line of a directive that is sent upstream under the label
/// `label`: an arrow, the label, and the directive's JSON text in indented
/// form, with the size of an audio payload in place of the payload.
pub fn log_upstream_json(label: &str, d: &Directive) -> (line: String)
    ensures
        line@ == log_upstream_spec(label@, d@),
{
    let compact = redacted_json(d);
    let pretty = read_pretty(compact.as_str());
    log_line(label, compact.as_str(), pretty)
}

} // verus!
