use serde_json::Value;
use transcription_starter::config::{load_api_key, load_config, API_KEY_HELP};
use transcription_starter::json::Json;
use transcription_starter::metadata::{
    answer_metadata, document_read, handle_metadata, meta_read, Metadata, MetadataAnswer,
    MetadataStep,
};
use transcription_starter::reply::{Body, Reply};
use transcription_starter::starter::{
    compose_request, starter_port, starter_request, starter_response, StarterError, StarterForm,
};
use transcription_starter::string_map::StringMap;
use transcription_starter::text::{contains, decimal_text, same_text, strip_prefix};

fn to_value(document: &Json) -> Value {
    match document {
        Json::Null => Value::Null,
        Json::Bool(value) => Value::Bool(*value),
        Json::Number(number) => Value::Number(number.clone()),
        Json::Text(text) => Value::String(text.clone()),
        Json::Array(items) => Value::Array(items.iter().map(to_value).collect()),
        Json::Object(map) => Value::Object(
            map.entries().iter().map(|(key, value)| (key.clone(), to_value(value))).collect(),
        ),
    }
}

fn body(reply: &Reply) -> Value {
    match &reply.body {
        Body::Document(document) => to_value(document),
        Body::Value(value) => value.clone(),
    }
}

fn parse(text: &str) -> Value {
    serde_json::from_str(text).unwrap()
}

fn metadata_error(message: &str) -> Value {
    parse(&format!(r#"{{"error": "INTERNAL_SERVER_ERROR", "message": "{message}"}}"#))
}

fn answered(content: Option<&str>) -> MetadataAnswer {
    match handle_metadata(content) {
        MetadataStep::Answer(answer) => answer,
        MetadataStep::ReadMeta => panic!("the section is asked for"),
    }
}

#[test]
fn port_and_host_are_configured() {
    let config = load_config(Some("3000"), Some("127.0.0.1".to_string()));
    assert_eq!(config.port, 3000);
    assert_eq!(config.host, "127.0.0.1");
    assert_eq!(config.address(), "127.0.0.1:3000");
}

#[test]
fn port_and_host_have_defaults() {
    let config = load_config(None, None);
    assert_eq!(config.address(), "0.0.0.0:8081");
    assert_eq!(load_config(None, Some(String::new())).address(), ":8081");
}

#[test]
fn text_that_is_no_port_gives_the_default() {
    for text in ["", "+", "-1", " 80", "80 ", "8_0", "65536", "0x50", "99999999999999999999"] {
        assert_eq!(load_config(Some(text), None).port, 8081);
    }
    for (text, port) in [("0", 0), ("+80", 80), ("00080", 80), ("65535", 65535)] {
        assert_eq!(load_config(Some(text), None).port, port);
    }
}

#[test]
fn decimal_writing_reads_back() {
    for port in [0, 7, 10, 99, 100, 8081, 65535] {
        let text = decimal_text(port);
        assert_eq!(text, port.to_string());
        assert_eq!(load_config(Some(&text), None).port, port);
    }
}

#[test]
fn banner_tells_the_port_and_the_routes() {
    let row = "=".repeat(70);
    assert_eq!(
        load_config(Some("9000"), None).banner(),
        format!(
            "\n{row}\n  Backend API running at http://localhost:9000\n  GET  /api/session\n\
             \x20 POST /api/transcription (auth required)\n  GET  /api/metadata\n  GET  /health\n{row}\n\n"
        )
    );
}

#[test]
fn api_key_must_not_be_empty() {
    assert_eq!(load_api_key(Some("key".to_string())), Some("key".to_string()));
    assert_eq!(load_api_key(Some(String::new())), None);
    assert_eq!(load_api_key(None), None);
    assert!(API_KEY_HELP.starts_with("\n  ERROR: Deepgram API key not found!\n\n"));
}

#[test]
fn meta_section_is_given() {
    let answer = answered(Some(
        "[build]\ncommand = \"make\"\n\n[meta]\ntitle = \"Starter\"\ntags = [\"a\", \"b\"]\nyear = 2024\n",
    ));
    assert!(answer.parse_error.is_none());
    assert_eq!(answer.reply.status, 200);
    assert_eq!(
        body(&answer.reply),
        parse(r#"{"title": "Starter", "tags": ["a", "b"], "year": 2024}"#)
    );
    let reply = answered(Some("meta = \"text\"")).reply;
    assert_eq!(reply.status, 200);
    assert_eq!(body(&reply), parse(r#""text""#));
}

#[test]
fn unreadable_file_and_malformed_file_are_errors() {
    for content in [None, Some("[meta"), Some("a = 1\na = 2")] {
        let answer = answered(content);
        assert_eq!(answer.parse_error.is_some(), content.is_some());
        assert_eq!(answer.reply.status, 500);
        assert_eq!(
            body(&answer.reply),
            metadata_error("Failed to read metadata from deepgram.toml")
        );
    }
}

#[test]
fn parse_error_is_that_of_the_file() {
    for content in ["[meta", "a = 1\na = 2", "="] {
        let error = toml::from_str::<toml::Table>(content).unwrap_err();
        let expected = format!("Error parsing deepgram.toml: {error}");
        let answer = answered(Some(content));
        assert_eq!(answer.parse_message(), Some(expected.clone()));
        match document_read(Err(error)) {
            MetadataStep::Answer(answer) => {
                assert_eq!(answer.reply.status, 500);
                assert_eq!(answer.parse_message(), Some(expected));
            }
            MetadataStep::ReadMeta => panic!("the section is asked for"),
        }
    }
    assert!(answered(Some("a = 1\na = 2"))
        .parse_message()
        .unwrap()
        .starts_with("Error parsing deepgram.toml: TOML parse error at line 2, column 1\n"));
    assert_eq!(answered(Some("")).parse_message(), None);
    assert_eq!(answered(None).parse_message(), None);
}

#[test]
fn parsed_document_is_answered_with_its_section() {
    let table = toml::from_str::<toml::Table>("[meta]\ntitle = \"T\"\n[x]\ny = 1\n").unwrap();
    match document_read(Ok(Some(table))) {
        MetadataStep::Answer(answer) => {
            assert!(answer.parse_error.is_none());
            assert_eq!(answer.reply.status, 200);
            assert_eq!(body(&answer.reply), parse(r#"{"title": "T"}"#));
        }
        MetadataStep::ReadMeta => panic!("the section is asked for"),
    }
    match document_read(Ok(Some(toml::Table::new()))) {
        MetadataStep::Answer(answer) => assert_eq!(
            body(&answer.reply),
            metadata_error("Missing [meta] section in deepgram.toml")
        ),
        MetadataStep::ReadMeta => panic!("the section is asked for"),
    }
    assert!(matches!(document_read(Ok(None)), MetadataStep::ReadMeta));
}

#[test]
fn missing_meta_section_is_an_error() {
    for content in ["", "[metadata]\nx = 1"] {
        let reply = answered(Some(content)).reply;
        assert_eq!(reply.status, 500);
        assert_eq!(body(&reply), metadata_error("Missing [meta] section in deepgram.toml"));
    }
}

#[test]
fn value_that_cannot_be_held_leaves_the_section_to_be_read_alone() {
    for content in [
        "[x]\n\"$__toml_private_datetime\" = \"no date\"\n[meta]\ntitle = \"T\"\n",
        "[meta]\n\"$__toml_private_datetime\" = \"no date\"\n",
    ] {
        assert!(matches!(handle_metadata(Some(content)), MetadataStep::ReadMeta));
    }
    let section = toml::from_str::<toml::Value>("title = \"T\"").unwrap();
    let answer = meta_read(Ok(Some(section)));
    assert!(answer.parse_error.is_none());
    assert_eq!(answer.reply.status, 200);
    assert_eq!(body(&answer.reply), parse(r#"{"title": "T"}"#));
    let answer = meta_read(Ok(None));
    assert_eq!(answer.reply.status, 500);
    assert_eq!(body(&answer.reply), metadata_error("Missing [meta] section in deepgram.toml"));
    let answer = meta_read(Err(toml::from_str::<toml::Value>("[").unwrap_err()));
    assert!(answer.parse_error.is_some());
    assert_eq!(answer.reply.status, 500);
    assert_eq!(
        body(&answer.reply),
        metadata_error("Failed to read metadata from deepgram.toml")
    );
}

#[test]
fn section_that_is_no_json_is_given_as_an_empty_object() {
    let reply = answer_metadata(Metadata::NotJson);
    assert_eq!(reply.status, 200);
    assert_eq!(body(&reply), parse("{}"));
}

#[test]
fn starter_port_is_configured_or_the_default() {
    assert_eq!(starter_port(None), Some(8080));
    assert_eq!(starter_port(Some("3000")), Some(3000));
    assert_eq!(starter_port(Some("")), None);
    assert_eq!(starter_port(Some("70000")), None);
}

fn form(features: Option<&str>) -> StarterForm {
    StarterForm {
        url: Some("https://example.com/a.wav".to_string()),
        features: features.map(str::to_string),
        model: Some("general".to_string()),
        version: None,
        tier: Some("nova".to_string()),
    }
}

#[test]
fn starter_form_becomes_a_request() {
    let features = r#"{"punctuate": true, "model": "general", "n": 2}"#;
    let request = starter_request(form(Some(features)), "key").unwrap();
    assert_eq!(
        request.endpoint,
        "https://api.deepgram.com/v1/listen?model=general&n=2&punctuate=true"
    );
    assert_eq!(request.query, "model=general&n=2&punctuate=true");
    assert_eq!(request.authorization, "token key");
    assert_eq!(to_value(&request.body), parse(r#"{"url": "https://example.com/a.wav"}"#));
    let response = starter_response(request, parse(r#"{"results": 1}"#));
    assert_eq!(response.model, Some("general".to_string()));
    assert_eq!(response.version, Some(String::new()));
    assert_eq!(response.tier, Some("nova".to_string()));
    assert_eq!(response.dg_features, parse(features));
    assert_eq!(response.transcription, parse(r#"{"results": 1}"#));
}

#[test]
fn starter_features_must_be_a_flat_json_object() {
    for features in [None, Some(""), Some("{"), Some("x")] {
        assert_eq!(
            starter_request(form(features), "key").unwrap_err(),
            StarterError::FeaturesNotJson
        );
    }
    for features in ["1", "\"x\"", r#"{"a": {"b": 1}}"#, "[1]"] {
        assert_eq!(
            starter_request(form(Some(features)), "key").unwrap_err(),
            StarterError::FeaturesNotEncodable
        );
    }
}

#[test]
fn starter_request_is_composed_of_its_parts() {
    let mut empty = form(None);
    empty.url = None;
    let request = compose_request(empty, "k", parse("{}"), "a=b".to_string());
    assert_eq!(request.endpoint, "https://api.deepgram.com/v1/listen?a=b");
    assert_eq!(to_value(&request.body), parse(r#"{"url": ""}"#));
}

#[test]
fn texts_are_compared_and_searched_by_characters() {
    assert!(same_text("h\u{e9}", "h\u{e9}"));
    assert!(!same_text("h\u{e9}", "he"));
    assert!(same_text("", ""));
    assert_eq!(strip_prefix("Bearer \u{e9}x", "Bearer "), Some("\u{e9}x"));
    assert_eq!(strip_prefix("Bear", "Bearer "), None);
    assert_eq!(strip_prefix("Bearer", ""), Some("Bearer"));
    assert!(contains("it has expired now", "expired"));
    assert!(!contains("it has Expired now", "expired"));
    assert!(contains("abc", ""));
    assert!(contains("", ""));
    assert!(!contains("ab", "abc"));
    assert!(contains("aaab", "aab"));
}

#[test]
fn map_keeps_one_value_for_each_key() {
    let mut map = StringMap::new();
    map.insert("a".to_string(), 1);
    map.insert("b".to_string(), 2);
    map.insert("a".to_string(), 3);
    assert_eq!(map.get("a"), Some(&3));
    assert_eq!(map.get("c"), None);
    assert_eq!(map.entries().len(), 2);
    assert_eq!(map.into_entries(), vec![("a".to_string(), 3), ("b".to_string(), 2)]);
}
