//! The shape of a transcription as the frontend expects it.

use crate::json::{items_view, Json, JsonView};
use vstd::prelude::*;

verus! {

/// The first item of an array, if the document is an array that has one.
pub open spec fn first_item(document: Option<JsonView>) -> Option<JsonView> {
    match document {
        Some(document) => match document.items() {
            Some(items) => if items.len() > 0 {
                Some(items[0])
            } else {
                None
            },
            None => None,
        },
        None => None,
    }
}

/// The member of a document that may be absent.
pub open spec fn member_of(document: Option<JsonView>, key: Seq<char>) -> Option<JsonView> {
    match document {
        Some(document) => document.member(key),
        None => None,
    }
}

/// `results.channels[0].alternatives[0]` of a response, if there is such a thing.
pub open spec fn first_alternative(response: JsonView) -> Option<JsonView> {
    let channel = first_item(member_of(response.member("results"@), "channels"@));
    first_item(member_of(channel, "alternatives"@))
}

/// An object, and one member more where there is one.
pub open spec fn with_optional(
    object: JsonView,
    key: Seq<char>,
    value: Option<JsonView>,
) -> JsonView {
    match value {
        Some(value) => object.with(key, value),
        None => object,
    }
}

/// The metadata of the transcription: the model, and what the response says of itself.
pub open spec fn transcript_metadata(response: JsonView, model_name: Seq<char>) -> JsonView {
    let named = JsonView::object().with("model_name"@, JsonView::Text(model_name));
    let meta = response.member("metadata"@);
    with_optional(
        with_optional(named, "model_uuid"@, member_of(meta, "model_uuid"@)),
        "request_id"@,
        member_of(meta, "request_id"@),
    )
}

/// The transcription of one alternative of a response, as the frontend expects it.
pub open spec fn transcript(
    response: JsonView,
    alternative: JsonView,
    model_name: Seq<char>,
) -> JsonView {
    let words = match alternative.member("words"@) {
        Some(words) => words,
        None => JsonView::Array(Seq::empty()),
    };
    let text = match alternative.member("transcript"@) {
        Some(text) => text,
        None => JsonView::Text(Seq::empty()),
    };
    with_optional(
        JsonView::object().with("transcript"@, text).with("words"@, words).with(
            "metadata"@,
            transcript_metadata(response, model_name),
        ),
        "duration"@,
        member_of(response.member("metadata"@), "duration"@),
    )
}

/// What is said of a response without a transcription.
pub const NO_RESULTS: &'static str = "No transcription results returned from Deepgram";

/// The first item of an array, if the document is an array that has one.
fn first_of<'a>(document: Option<&'a Json>) -> (item: Option<&'a Json>)
    ensures
        match document {
            Some(document) => match item {
                Some(item) => first_item(Some(document@)) == Some(item@),
                None => first_item(Some(document@)) is None,
            },
            None => item is None,
        },
{
    match document {
        Some(document) => match document.as_array() {
            Some(items) => if items.len() > 0 {
                assert(items_view(items@)[0] == items@[0]@);
                Some(&items[0])
            } else {
                None
            },
            None => None,
        },
        None => None,
    }
}

/// Gives an object one member more, where there is one.
fn add_optional(object: Json, key: &str, value: Option<&Json>) -> (document: Json)
    requires
        object@ is Object,
    ensures
        document@ is Object,
        match value {
            Some(value) => document@ == with_optional(object@, key@, Some(value@)),
            None => document@ == with_optional(object@, key@, None),
        },
{
    match value {
        Some(value) => object.with(key, value.clone()),
        None => object,
    }
}

/// Takes what the frontend expects out of a response of the transcription service.
pub fn format_transcription_response(dg_response: &Json, model_name: &str) -> (formatted: Result<
    Json,
    String,
>)
    ensures
        match first_alternative(dg_response@) {
            Some(alternative) => formatted matches Ok(document) && document@ == transcript(
                dg_response@,
                alternative,
                model_name@,
            ),
            None => formatted matches Err(message) && message@ == NO_RESULTS@,
        },
{
    let results: &Json = match dg_response.get("results") {
        Some(results) => results,
        None => return Err(NO_RESULTS.to_string()),
    };
    let channel: &Json = match first_of(results.get("channels")) {
        Some(channel) => channel,
        None => return Err(NO_RESULTS.to_string()),
    };
    let alternative: &Json = match first_of(channel.get("alternatives")) {
        Some(alternative) => alternative,
        None => return Err(NO_RESULTS.to_string()),
    };
    let mut metadata: Json = Json::object().with("model_name", Json::text(model_name));
    let mut duration: Option<&Json> = None;
    if let Some(meta) = dg_response.get("metadata") {
        metadata = add_optional(metadata, "model_uuid", meta.get("model_uuid"));
        metadata = add_optional(metadata, "request_id", meta.get("request_id"));
        duration = meta.get("duration");
    }
    let text: Json = match alternative.get("transcript") {
        Some(text) => text.clone(),
        None => Json::Text(String::new()),
    };
    let words: Json = match alternative.get("words") {
        Some(words) => words.clone(),
        None => Json::Array(Vec::new()),
    };
    assert(items_view(Seq::empty()) =~= Seq::empty());
    let response: Json = Json::object().with("transcript", text).with("words", words).with(
        "metadata",
        metadata,
    );
    Ok(add_optional(response, "duration", duration))
}

/// The frontend gets the text and the words of the first alternative, the model that was asked for,
/// and what the response says of its model, its request and its duration, each where it is there;
/// and nothing else.
pub proof fn transcript_members(
    response: JsonView,
    alternative: JsonView,
    model_name: Seq<char>,
)
    ensures
        ({
            let formatted = transcript(response, alternative, model_name);
            let meta = response.member("metadata"@);
            &&& formatted.member("transcript"@) == Some(
                match alternative.member("transcript"@) {
                    Some(text) => text,
                    None => JsonView::Text(Seq::empty()),
                },
            )
            &&& formatted.member("words"@) == Some(
                match alternative.member("words"@) {
                    Some(words) => words,
                    None => JsonView::Array(Seq::empty()),
                },
            )
            &&& formatted is Object
            &&& formatted.member("duration"@) == (match meta {
                Some(meta) => meta.member("duration"@),
                None => None,
            })
            &&& forall|key: Seq<char>| #[trigger]
                formatted.member(key) is Some ==> key == "transcript"@ || key == "words"@ || key
                    == "metadata"@ || key == "duration"@
            &&& formatted.member("metadata"@) matches Some(metadata) && {
                &&& metadata.member("model_name"@) == Some(JsonView::Text(model_name))
                &&& metadata is Object
                &&& metadata.member("model_uuid"@) == (match meta {
                    Some(meta) => meta.member("model_uuid"@),
                    None => None,
                })
                &&& metadata.member("request_id"@) == (match meta {
                    Some(meta) => meta.member("request_id"@),
                    None => None,
                })
                &&& forall|key: Seq<char>| #[trigger]
                    metadata.member(key) is Some ==> key == "model_name"@ || key == "model_uuid"@
                        || key == "request_id"@
            }
        }),
{
    reveal_strlit("transcript");
    reveal_strlit("words");
    reveal_strlit("metadata");
    reveal_strlit("duration");
    reveal_strlit("model_name");
    reveal_strlit("model_uuid");
    reveal_strlit("request_id");
    assert("transcript"@.len() == 10 && "words"@.len() == 5);
    assert("metadata"@.len() == 8 && "duration"@.len() == 8);
    assert("metadata"@[0] != "duration"@[0]);
    assert("model_name"@[6] != "model_uuid"@[6]);
    assert("model_name"@[0] != "request_id"@[0]);
    assert("model_uuid"@[0] != "request_id"@[0]);
}

/// The alternative that is formatted is the first alternative of the first channel, as it stands in
/// the response, whatever else the response holds.
pub proof fn first_channel_and_alternative_count(
    response: JsonView,
    results: JsonView,
    channels: Seq<JsonView>,
    alternatives: Seq<JsonView>,
)
    requires
        response.member("results"@) == Some(results),
        results.member("channels"@) == Some(JsonView::Array(channels)),
        channels.len() > 0,
        channels[0].member("alternatives"@) == Some(JsonView::Array(alternatives)),
        alternatives.len() > 0,
    ensures
        first_alternative(response) == Some(alternatives[0]),
{
}

/// A response has an alternative to format only where its results have a first channel, and that a
/// first alternative: there is no other place that one is taken from.
pub proof fn alternative_comes_from_the_first_channel(response: JsonView, alternative: JsonView)
    requires
        first_alternative(response) == Some(alternative),
    ensures
        response.member("results"@) matches Some(results) && {
            &&& results.member("channels"@) matches Some(JsonView::Array(channels)) && {
                &&& channels.len() > 0
                &&& channels[0].member("alternatives"@) matches Some(JsonView::Array(alternatives))
                    && alternatives.len() > 0 && alternative == alternatives[0]
            }
        },
{
}

/// The transcription that the frontend gets holds the text and the words of the first alternative of
/// the first channel, unchanged, where that has them.
pub proof fn words_and_text_are_those_of_the_first_alternative(
    response: JsonView,
    results: JsonView,
    channels: Seq<JsonView>,
    alternatives: Seq<JsonView>,
    model_name: Seq<char>,
    text: JsonView,
    words: JsonView,
)
    requires
        response.member("results"@) == Some(results),
        results.member("channels"@) == Some(JsonView::Array(channels)),
        channels.len() > 0,
        channels[0].member("alternatives"@) == Some(JsonView::Array(alternatives)),
        alternatives.len() > 0,
        alternatives[0].member("transcript"@) == Some(text),
        alternatives[0].member("words"@) == Some(words),
    ensures
        first_alternative(response) matches Some(alternative) && {
            let formatted = transcript(response, alternative, model_name);
            &&& formatted.member("transcript"@) == Some(text)
            &&& formatted.member("words"@) == Some(words)
        },
{
    first_channel_and_alternative_count(response, results, channels, alternatives);
    transcript_members(response, alternatives[0], model_name);
}

} // verus!
