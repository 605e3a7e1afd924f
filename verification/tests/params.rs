use transcription_starter::options::build_options;
use transcription_starter::params::{
    first_non_empty, transcription_model, transcription_params, Fields,
};

fn fields(pairs: &[(&str, &str)]) -> Fields {
    let mut map = Fields::new();
    for (key, value) in pairs {
        map.insert(key.to_string(), value.to_string());
    }
    map
}

fn pairs(params: &[(&str, &str)]) -> Vec<(String, String)> {
    params.iter().map(|(key, value)| (key.to_string(), value.to_string())).collect()
}

fn sent(params: &[(&str, &str)]) -> String {
    build_options(&pairs(params)).urlencoded().unwrap()
}

#[test]
fn first_text_that_is_not_empty_is_chosen() {
    assert_eq!(first_non_empty(&["", "b", "c"], "d"), "b");
    assert_eq!(first_non_empty(&["a"], "d"), "a");
    assert_eq!(first_non_empty(&["", ""], "d"), "d");
    assert_eq!(first_non_empty(&[], "d"), "d");
    assert_eq!(first_non_empty(&[], ""), "");
}

#[test]
fn query_string_goes_before_form() {
    let query = fields(&[("model", "nova-2"), ("language", ""), ("smart_format", "false")]);
    let form = fields(&[("model", "base"), ("language", "es"), ("smart_format", "true")]);
    assert_eq!(transcription_model(&query, &form), "nova-2");
    assert_eq!(
        transcription_params(&query, &form),
        pairs(&[("model", "nova-2"), ("language", "es"), ("smart_format", "false")])
    );
}

#[test]
fn defaults_stand_where_nothing_is_said() {
    assert_eq!(
        transcription_params(&fields(&[]), &fields(&[("diarize", "")])),
        pairs(&[("model", "nova-3"), ("language", "en"), ("smart_format", "true")])
    );
}

#[test]
fn features_come_in_a_fixed_order() {
    let query = fields(&[("filler_words", "true"), ("paragraphs", "1"), ("unknown", "x")]);
    let form = fields(&[("utterances", "false"), ("diarize", "true"), ("punctuate", "true")]);
    assert_eq!(
        transcription_params(&query, &form),
        pairs(&[
            ("model", "nova-3"),
            ("language", "en"),
            ("smart_format", "true"),
            ("diarize", "true"),
            ("punctuate", "true"),
            ("paragraphs", "1"),
            ("utterances", "false"),
            ("filler_words", "true"),
        ])
    );
}

#[test]
fn url_field_changes_no_parameter() {
    let query = fields(&[("model", "base")]);
    let mut form = fields(&[("url", "https://example.com"), ("diarize", "true")]);
    let with_url = transcription_params(&query, &form);
    assert_eq!(form.get("url").unwrap(), "https://example.com");
    form.remove("url");
    assert!(form.get("url").is_none());
    assert_eq!(transcription_params(&query, &form), with_url);
}

#[test]
fn every_parameter_reaches_the_options() {
    assert_eq!(
        sent(&[
            ("model", "nova-3"),
            ("language", "pt-BR"),
            ("smart_format", "true"),
            ("diarize", "true"),
            ("punctuate", "false"),
            ("paragraphs", "true"),
            ("utterances", "true"),
            ("filler_words", "true"),
        ]),
        "model=nova-3&language=pt-BR&punctuate=false&diarize=true&utterances=true\
         &smart_format=true&filler_words=true&paragraphs=true"
    );
}

#[test]
fn model_is_sent_by_its_id() {
    for (name, id) in [
        ("nova-3-general", "nova-3"),
        ("nova-2-general", "nova-2"),
        ("nova-general", "nova"),
        ("enhanced-general", "enhanced"),
        ("base-general", "base"),
    ] {
        assert_eq!(sent(&[("model", name)]), format!("model={id}"));
    }
    for name in [
        "nova-3", "nova-2", "nova", "enhanced", "base", "nova-3-medical", "nova-2-medical",
        "flux-general-en", "flux-general-multi", "nova-2-meeting", "nova-2-phonecall",
        "nova-2-finance", "nova-2-conversationalai", "nova-2-voicemail", "nova-2-video",
        "nova-2-drivethru", "nova-2-automotive", "nova-phonecall", "nova-medical",
        "enhanced-meeting", "enhanced-phonecall", "enhanced-finance", "base-meeting",
        "base-phonecall", "base-voicemail", "base-finance", "base-conversationalai", "base-video",
        "general", "phonecall", "voicemail", "finance", "meeting", "conversationalai", "video",
        "whisper", "whisper-tiny", "whisper-base", "whisper-small", "whisper-medium",
        "whisper-large", "my-own-model", "whisper-general",
    ] {
        assert_eq!(sent(&[("model", name)]), format!("model={name}"));
    }
}

#[test]
fn order_and_unknown_names_do_not_matter() {
    let expected = "model=base&language=de&diarize=true";
    assert_eq!(sent(&[("model", "base"), ("language", "de"), ("diarize", "true")]), expected);
    assert_eq!(sent(&[("diarize", "true"), ("model", "base"), ("language", "de")]), expected);
    assert_eq!(
        sent(&[
            ("url", "x"),
            ("language", "de"),
            ("Model", "nova"),
            ("diarize", "true"),
            ("url", "y"),
            ("model", "base"),
        ]),
        expected
    );
}

#[test]
fn any_language_is_sent_as_it_is() {
    assert_eq!(sent(&[("language", "multi")]), "language=multi");
    assert_eq!(sent(&[("language", "tlh")]), "language=tlh");
}

#[test]
fn switch_is_on_for_true_alone() {
    assert_eq!(sent(&[("diarize", "TRUE")]), "diarize=false");
    assert_eq!(sent(&[("diarize", "1")]), "diarize=false");
    assert_eq!(sent(&[("diarize", "true")]), "diarize=true");
}

#[test]
fn first_parameter_of_a_name_counts_and_an_empty_one_is_none() {
    assert_eq!(sent(&[("model", "base"), ("model", "nova")]), "model=base");
    assert_eq!(sent(&[("model", ""), ("model", "nova")]), "");
    assert_eq!(sent(&[("unknown", "x")]), "");
    assert_eq!(sent(&[]), "");
}
