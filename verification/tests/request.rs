use serde_json::Value;
use transcription_starter::json::Json;
use transcription_starter::params::Fields;
use transcription_starter::reply::{format_error_response, handle_health, Body, Reply};
use transcription_starter::request::{
    answer_transcription, AfterForm, CallFailure, Fetched, FormEvent, FormStep, RemoteAudio,
    TranscriptionCall, TranscriptionRequest,
};
use transcription_starter::string_map::StringMap;
use transcription_starter::transcript::format_transcription_response;
use transcription_starter::upload::{accept_url, field_kind, AudioSource, Field, FieldKind};

fn to_value(document: &Json) -> Value {
    match document {
        Json::Null => Value::Null,
        Json::Bool(value) => Value::Bool(*value),
        Json::Number(number) => Value::Number(number.clone()),
        Json::Text(text) => Value::String(text.clone()),
        Json::Array(items) => Value::Array(items.iter().map(to_value).collect()),
        Json::Object(map) => Value::Object(
            map.entries().iter().map(|(key, value)| (key.clone(), to_value(value))).collect(),
        ),
    }
}

fn from_value(value: Value) -> Json {
    match value {
        Value::Null => Json::Null,
        Value::Bool(value) => Json::Bool(value),
        Value::Number(number) => Json::Number(number),
        Value::String(text) => Json::Text(text),
        Value::Array(items) => Json::Array(items.into_iter().map(from_value).collect()),
        Value::Object(members) => {
            let mut map = StringMap::new();
            for (key, value) in members {
                map.insert(key, from_value(value));
            }
            Json::Object(map)
        }
    }
}

fn parse(text: &str) -> Value {
    serde_json::from_str(text).unwrap()
}

fn document(text: &str) -> Json {
    from_value(parse(text))
}

fn body(reply: &Reply) -> Value {
    match &reply.body {
        Body::Document(document) => to_value(document),
        Body::Value(value) => value.clone(),
    }
}

fn fields(pairs: &[(&str, &str)]) -> Fields {
    let mut map = Fields::new();
    for (key, value) in pairs {
        map.insert(key.to_string(), value.to_string());
    }
    map
}

fn error(kind: &str, code: &str, message: &str) -> Value {
    parse(&format!(
        r#"{{"error":{{"type":"{kind}","code":"{code}","message":"{message}",
            "details":{{"originalError":"{message}"}}}}}}"#
    ))
}

fn text_field(name: &str, text: &str) -> Field {
    Field::Text(Some(name.to_string()), Some(text.to_string()))
}

fn read_form(query: &[(&str, &str)], form: Vec<Field>, last: FormEvent) -> AfterForm {
    let mut request = TranscriptionRequest::new(fields(query));
    for event in form.into_iter().map(FormEvent::Field).chain([last]) {
        match request.form_event(event) {
            FormStep::ReadOn(read) => request = read,
            FormStep::Done(next) => return next,
        }
    }
    panic!("the form is not over")
}

fn file(bytes: &[u8]) -> Field {
    Field::File(Ok(bytes.to_vec()))
}

fn refused(reply: &Reply, code: &str, message: &str) {
    assert_eq!(reply.status, 400);
    assert_eq!(body(reply), error("ValidationError", code, message));
}

fn call_of(next: AfterForm) -> TranscriptionCall {
    match next {
        AfterForm::Call(call) => call,
        _ => panic!("no call"),
    }
}

fn answer_of(next: AfterForm) -> Reply {
    match next {
        AfterForm::Answer(reply) => reply,
        _ => panic!("no answer"),
    }
}

fn remote_of(next: AfterForm) -> RemoteAudio {
    match next {
        AfterForm::Fetch(remote) => remote,
        _ => panic!("nothing to fetch"),
    }
}

#[test]
fn only_the_file_field_is_read_as_bytes() {
    assert_eq!(field_kind(Some("file")), FieldKind::File);
    assert_eq!(field_kind(Some("File")), FieldKind::Text);
    assert_eq!(field_kind(Some("url")), FieldKind::Text);
    assert_eq!(field_kind(None), FieldKind::Text);
}

#[test]
fn uploaded_file_is_transcribed() {
    let form = vec![
        text_field("url", "https://example.com/a.wav"),
        text_field("model", "nova-2"),
        file(&[1, 2, 3]),
    ];
    let call = call_of(read_form(&[("diarize", "true")], form, FormEvent::End));
    assert_eq!(call.audio, vec![1, 2, 3]);
    assert_eq!(call.model, "nova-2");
    assert_eq!(
        call.options.urlencoded().unwrap(),
        "model=nova-2&language=en&diarize=true&smart_format=true"
    );
}

#[test]
fn last_file_and_last_text_count() {
    let form = vec![
        file(&[1]),
        text_field("language", "de"),
        file(&[2, 2]),
        text_field("language", "fr"),
    ];
    let call = call_of(read_form(&[], form, FormEvent::End));
    assert_eq!(call.audio, vec![2, 2]);
    assert_eq!(
        call.options.urlencoded().unwrap(),
        "model=nova-3&language=fr&smart_format=true"
    );
}

#[test]
fn unknown_fields_have_no_part() {
    let mut form: Vec<Field> =
        (0..2000).map(|i| text_field(&format!("field {i}"), "true")).collect();
    form.push(file(&[5]));
    form.push(text_field("field 7", "false"));
    let call = call_of(read_form(&[("other", "true")], form, FormEvent::End));
    assert_eq!(call.audio, vec![5]);
    assert_eq!(
        call.options.urlencoded().unwrap(),
        "model=nova-3&language=en&smart_format=true"
    );
}

#[test]
fn unreadable_text_counts_as_absent() {
    let form = vec![
        text_field("language", "fr"),
        file(&[2, 2]),
        Field::Text(Some("language".to_string()), None),
        Field::Text(None, None),
    ];
    let call = call_of(read_form(&[], form, FormEvent::End));
    assert_eq!(
        call.options.urlencoded().unwrap(),
        "model=nova-3&language=fr&smart_format=true"
    );
}

#[test]
fn form_that_breaks_off_is_over() {
    for last in [FormEvent::End, FormEvent::Broken] {
        let form = vec![file(&[4]), text_field("punctuate", "true")];
        let call = call_of(read_form(&[], form, last));
        assert_eq!(call.audio, vec![4]);
        assert_eq!(
            call.options.urlencoded().unwrap(),
            "model=nova-3&language=en&punctuate=true&smart_format=true"
        );
    }
    refused(
        &answer_of(read_form(&[], vec![], FormEvent::Broken)),
        "MISSING_INPUT",
        "Either file or url must be provided",
    );
}

#[test]
fn file_and_text_fields_change_places() {
    let first = vec![file(&[7]), text_field("utterances", "no")];
    let second = vec![text_field("utterances", "no"), file(&[7])];
    let first = call_of(read_form(&[], first, FormEvent::End));
    let second = call_of(read_form(&[], second, FormEvent::End));
    assert_eq!(first.audio, second.audio);
    assert_eq!(first.options.urlencoded().unwrap(), second.options.urlencoded().unwrap());
    assert_eq!(
        first.options.urlencoded().unwrap(),
        "model=nova-3&language=en&utterances=false&smart_format=true"
    );
}

#[test]
fn unreadable_file_ends_the_request() {
    let form = vec![Field::File(Err("connection reset".to_string())), file(&[1])];
    refused(
        &answer_of(read_form(&[], form, FormEvent::End)),
        "MISSING_INPUT",
        "Failed to read uploaded file: connection reset",
    );
}

#[test]
fn request_without_audio_is_refused() {
    refused(
        &answer_of(read_form(&[("url", "https://example.com/a.wav")], vec![], FormEvent::End)),
        "MISSING_INPUT",
        "Either file or url must be provided",
    );
    refused(
        &answer_of(read_form(&[], vec![file(&[]), text_field("url", "")], FormEvent::End)),
        "MISSING_INPUT",
        "Either file or url must be provided",
    );
}

#[test]
fn url_must_be_one() {
    let form = vec![text_field("url", "not a url")];
    refused(
        &answer_of(read_form(&[], form, FormEvent::End)),
        "INVALID_URL",
        "Invalid URL format",
    );
    match accept_url("x".to_string(), false) {
        AudioSource::Refused(reply) => refused(&reply, "INVALID_URL", "Invalid URL format"),
        _ => panic!("accepted"),
    }
    assert!(matches!(accept_url("x".to_string(), true), AudioSource::Remote(url) if url == "x"));
}

#[test]
fn remote_audio_is_fetched_and_transcribed() {
    let form = vec![
        file(&[]),
        text_field("url", "https://example.com/a.wav"),
        text_field("punctuate", "true"),
    ];
    let remote = remote_of(read_form(&[("model", "base")], form, FormEvent::End));
    assert_eq!(remote.url, "https://example.com/a.wav");
    let body = remote.fetched(Fetched::Response(206, "206 Partial Content".to_string())).unwrap();
    let call = body.read(Ok(vec![9, 9])).unwrap_or_else(|_| panic!("refused"));
    assert_eq!(call.audio, vec![9, 9]);
    assert_eq!(call.model, "base");
    assert_eq!(
        call.options.urlencoded().unwrap(),
        "model=base&language=en&punctuate=true&smart_format=true"
    );
}

fn remote() -> RemoteAudio {
    let form = vec![text_field("url", "https://example.com/a.wav")];
    remote_of(read_form(&[], form, FormEvent::End))
}

#[test]
fn audio_that_cannot_be_fetched_is_an_error_of_the_request() {
    let reply = remote().fetched(Fetched::Response(404, "404 Not Found".to_string())).err().unwrap();
    refused(&reply, "URL_FETCH_FAILED", "Failed to fetch audio from URL: HTTP 404 Not Found");
    for status in [100, 199, 300, 500] {
        let response = Fetched::Response(status, "no".to_string());
        let reply = remote().fetched(response).err().unwrap();
        refused(&reply, "URL_FETCH_FAILED", "Failed to fetch audio from URL: HTTP no");
    }
    let reply = remote().fetched(Fetched::Failure("timed out".to_string())).err().unwrap();
    refused(&reply, "URL_FETCH_FAILED", "Failed to fetch audio from URL: timed out");
    let body = remote().fetched(Fetched::Response(200, "200 OK".to_string())).unwrap();
    match body.read(Err("cut off".to_string())) {
        Err(reply) => {
            refused(&reply, "URL_FETCH_FAILED", "Failed to read audio from URL: cut off")
        }
        Ok(_) => panic!("accepted"),
    }
}

const RESPONSE: &str = r#"{
    "metadata": {"model_uuid": "m-1", "request_id": "r-1", "duration": 25.933, "channels": 1},
    "results": {"channels": [
        {"alternatives": [
            {"transcript": "hello world", "confidence": 0.9, "words": [{"word": "hello", "start": 0.08}]},
            {"transcript": "hallo world"}
        ]},
        {"alternatives": []}
    ]}
}"#;

#[test]
fn transcription_is_given_in_the_shape_of_the_frontend() {
    let reply = answer_transcription(&Ok(document(RESPONSE)), "nova-3");
    assert_eq!(reply.status, 200);
    assert_eq!(
        body(&reply),
        parse(
            r#"{"transcript": "hello world", "words": [{"word": "hello", "start": 0.08}],
                "metadata": {"model_name": "nova-3", "model_uuid": "m-1", "request_id": "r-1"},
                "duration": 25.933}"#
        )
    );
}

#[test]
fn absent_members_have_defaults_or_stay_absent() {
    let response = document(r#"{"results": {"channels": [{"alternatives": [{}]}]}}"#);
    let formatted = format_transcription_response(&response, "base").unwrap();
    assert_eq!(
        to_value(&formatted),
        parse(r#"{"transcript": "", "words": [], "metadata": {"model_name": "base"}}"#)
    );
    let response = document(
        r#"{"metadata": null, "results": {"channels": [{"alternatives": [
            {"transcript": null, "words": false}]}]}}"#,
    );
    let formatted = format_transcription_response(&response, "base").unwrap();
    assert_eq!(
        to_value(&formatted),
        parse(r#"{"transcript": null, "words": false, "metadata": {"model_name": "base"}}"#)
    );
}

#[test]
fn response_without_a_transcription_is_an_error() {
    for text in [
        "null",
        "{}",
        "[]",
        r#"{"results": null}"#,
        r#"{"results": {"channels": {}}}"#,
        r#"{"results": {"channels": []}}"#,
        r#"{"results": {"channels": [{}]}}"#,
        r#"{"results": {"channels": [{"alternatives": "x"}]}}"#,
        r#"{"results": {"channels": [{"alternatives": []}]}}"#,
    ] {
        let message = "No transcription results returned from Deepgram";
        assert_eq!(format_transcription_response(&document(text), "m").unwrap_err(), message);
        let reply = answer_transcription(&Ok(document(text)), "m");
        assert_eq!(reply.status, 500);
        assert_eq!(body(&reply), error("TranscriptionError", "TRANSCRIPTION_FAILED", message));
    }
}

#[test]
fn failed_call_keeps_its_cause_inside() {
    let failures = [
        (CallFailure::Client("a".to_string()), "Failed to initialize Deepgram client: a"),
        (CallFailure::Api("b".to_string()), "Deepgram API returned an error: b"),
        (CallFailure::Request("c".to_string()), "Deepgram API request failed: c"),
        (CallFailure::Response("d".to_string()), "Failed to serialize Deepgram response: d"),
    ];
    for (failure, message) in failures {
        assert_eq!(failure.message(), message);
        let reply = answer_transcription(&Err(failure), "m");
        assert_eq!(reply.status, 500);
        assert_eq!(
            body(&reply),
            error(
                "TranscriptionError",
                "TRANSCRIPTION_FAILED",
                "An error occurred during transcription"
            )
        );
    }
}

#[test]
fn error_document_has_a_usual_code() {
    assert_eq!(
        to_value(&format_error_response("m", 400, None)),
        error("ValidationError", "MISSING_INPUT", "m")
    );
    assert_eq!(
        to_value(&format_error_response("m", 500, None)),
        error("TranscriptionError", "TRANSCRIPTION_FAILED", "m")
    );
    assert_eq!(
        to_value(&format_error_response("m", 404, Some("NOT_FOUND"))),
        error("TranscriptionError", "NOT_FOUND", "m")
    );
}

#[test]
fn server_tells_that_it_is_up() {
    let reply = handle_health();
    assert_eq!(reply.status, 200);
    assert_eq!(body(&reply), parse(r#"{"status": "ok"}"#));
}

#[test]
fn copy_of_a_document_says_the_same() {
    let original = document(RESPONSE);
    assert_eq!(to_value(&original.clone()), to_value(&original));
    assert_eq!(to_value(&original), parse(RESPONSE));
}
