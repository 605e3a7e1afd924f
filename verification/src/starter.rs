//! The first starter: one form, one request to Deepgram, one answer.

use crate::json::{Json, JsonView};
use crate::text::{optional_text, parse_u16, u16_value};
use crate::value::{json_text, parse_json, parsed_json};
use vstd::prelude::*;

verus! {

/// The port when none is configured.
pub const STARTER_PORT: u16 = 8080;

/// Where Deepgram takes requests.
pub const ENDPOINT: &'static str = "https://api.deepgram.com/v1/listen";

/// The port that a text gives; `None` where the text is no port.
pub open spec fn starter_port_of(text: Option<Seq<char>>) -> Option<u16> {
    match text {
        Some(text) => u16_value(text),
        None => Some(STARTER_PORT),
    }
}

/// Reads the port; `None` where the configured text is no port.
pub fn starter_port(configured: Option<&str>) -> (port: Option<u16>)
    ensures
        port == starter_port_of(optional_text(configured)),
{
    match configured {
        Some(text) => parse_u16(text),
        None => Some(STARTER_PORT),
    }
}

/// Declares `serde_urlencoded::ser::Error`, which says why a value is no query string.
#[verifier::external_type_specification]
#[verifier::external_body]
pub struct ExQueryError(serde_urlencoded::ser::Error);

/// The query string that `serde_urlencoded::to_string` writes for a JSON value, given by its
/// compact text; `None` where it fails.
pub uninterp spec fn query_string(json: Seq<char>) -> Option<Seq<char>>;

/// Calls `serde_urlencoded::to_string`. Whether it succeeds, and what it writes, depend on the
/// value alone.
#[verifier::external_body]
fn encode_query(value: &serde_json::Value) -> (query: Result<
    String,
    serde_urlencoded::ser::Error,
>)
    ensures
        match query {
            Ok(query) => query_string(json_text(*value)) == Some(query@),
            Err(_) => query_string(json_text(*value)) is None,
        },
{
    serde_urlencoded::to_string(value)
}

/// The fields of the form.
#[derive(Debug)]
pub struct StarterForm {
    pub url: Option<String>,
    pub features: Option<String>,
    pub model: Option<String>,
    pub version: Option<String>,
    pub tier: Option<String>,
}

/// A field of the form; empty where it is absent.
pub open spec fn given(field: Option<String>) -> Seq<char> {
    match field {
        Some(text) => text@,
        None => Seq::empty(),
    }
}

/// A field of the form; empty where it is absent.
fn given_text(field: Option<String>) -> (text: String)
    ensures
        text@ == given(field),
{
    match field {
        Some(text) => text,
        None => String::new(),
    }
}

/// Why a form cannot be sent on.
#[derive(Debug, Clone, Copy, PartialEq, Eq)]
pub enum StarterError {
    /// The features are no JSON.
    FeaturesNotJson,
    /// The features cannot be written as a query string.
    FeaturesNotEncodable,
}

/// A request to Deepgram, and what the answer repeats of the form.
#[derive(Debug)]
pub struct StarterRequest {
    /// Where it is sent, with the query string.
    pub endpoint: String,
    /// Its `Authorization` header.
    pub authorization: String,
    /// Its body.
    pub body: Json,
    /// The query string.
    pub query: String,
    pub features: serde_json::Value,
    pub model: String,
    pub version: String,
    pub tier: String,
}

/// The request that a form makes, given its features and their query string.
pub open spec fn composed(
    request: StarterRequest,
    form: StarterForm,
    api_key: Seq<char>,
    features: Seq<char>,
    query: Seq<char>,
) -> bool {
    &&& request.endpoint@ == ENDPOINT@ + "?"@ + query
    &&& request.authorization@ == "token "@ + api_key
    &&& request.body@ == JsonView::object().with("url"@, JsonView::Text(given(form.url)))
    &&& request.query@ == query
    &&& json_text(request.features) == features
    &&& request.model@ == given(form.model)
    &&& request.version@ == given(form.version)
    &&& request.tier@ == given(form.tier)
}

/// Composes the request of a form, given its features and their query string.
pub fn compose_request(
    form: StarterForm,
    api_key: &str,
    features: serde_json::Value,
    query: String,
) -> (request: StarterRequest)
    ensures
        composed(request, form, api_key@, json_text(features), query@),
{
    let mut endpoint: String = ENDPOINT.to_string();
    endpoint.append("?");
    endpoint.append(query.as_str());
    let mut authorization: String = "token ".to_string();
    authorization.append(api_key);
    StarterRequest {
        endpoint,
        authorization,
        body: Json::object().with("url", Json::Text(given_text(form.url))),
        query,
        features,
        model: given_text(form.model),
        version: given_text(form.version),
        tier: given_text(form.tier),
    }
}

/// Makes the request to Deepgram that a form asks for.
pub fn starter_request(form: StarterForm, api_key: &str) -> (request: Result<
    StarterRequest,
    StarterError,
>)
    ensures
        match parsed_json(given(form.features)) {
            None => request == Err::<StarterRequest, _>(StarterError::FeaturesNotJson),
            Some(features) => match query_string(features) {
                None => request == Err::<StarterRequest, _>(StarterError::FeaturesNotEncodable),
                Some(query) => request matches Ok(request) && composed(
                    request,
                    form,
                    api_key@,
                    features,
                    query,
                ),
            },
        },
{
    let features: String = match &form.features {
        Some(text) => text.clone(),
        None => String::new(),
    };
    let features: serde_json::Value = match parse_json(features.as_str()) {
        Ok(features) => features,
        Err(_) => return Err(StarterError::FeaturesNotJson),
    };
    match encode_query(&features) {
        Ok(query) => Ok(compose_request(form, api_key, features, query)),
        Err(_) => Err(StarterError::FeaturesNotEncodable),
    }
}

/// The answer: what the form said, and the transcription as Deepgram gave it.
#[derive(Debug)]
pub struct StarterResponse {
    pub model: Option<String>,
    pub version: Option<String>,
    pub tier: Option<String>,
    pub dg_features: serde_json::Value,
    pub transcription: serde_json::Value,
}

/// Answers with what Deepgram gave for a request.
pub fn starter_response(request: StarterRequest, transcription: serde_json::Value) -> (response:
    StarterResponse)
    ensures
        response.model == Some(request.model),
        response.version == Some(request.version),
        response.tier == Some(request.tier),
        response.dg_features == request.features,
        response.transcription == transcription,
{
    StarterResponse {
        model: Some(request.model),
        version: Some(request.version),
        tier: Some(request.tier),
        dg_features: request.features,
        transcription,
    }
}

/// Every text that is a 16-bit number is the port, any other text is none, and 8080 is the port
/// where there is no text.
pub proof fn starter_port_is_the_number_given(text: Seq<char>)
    ensures
        starter_port_of(Some(text)) == u16_value(text),
        starter_port_of(None) == Some(8080u16),
{
}

/// A field of the form is taken as it is, and an absent one as empty.
pub proof fn field_is_taken_as_it_is(text: String)
    ensures
        given(Some(text)) == text@,
        given(None).len() == 0,
{
}

/// The request that a form makes goes to Deepgram with the whole query string, the whole key, and a
/// body that holds the form's URL and nothing else; and what the answer repeats of the form is what
/// the form said, empty where it said nothing.
pub proof fn request_says_what_the_form_says(
    request: StarterRequest,
    form: StarterForm,
    api_key: Seq<char>,
    features: Seq<char>,
    query: Seq<char>,
)
    requires
        composed(request, form, api_key, features, query),
    ensures
        request.endpoint@ == "https://api.deepgram.com/v1/listen"@ + "?"@ + query,
        request.query@ == query,
        request.authorization@ == "token "@ + api_key,
        json_text(request.features) == features,
        request.body@ is Object,
        forall|key: Seq<char>| (#[trigger] request.body@.member(key)) is Some <==> key == "url"@,
        form.url matches Some(url) ==> request.body@.member("url"@) == Some(JsonView::Text(url@)),
        form.url is None ==> request.body@.member("url"@) == Some(JsonView::Text(Seq::empty())),
        form.model matches Some(model) ==> request.model@ == model@,
        form.model is None ==> request.model@.len() == 0,
        form.version matches Some(version) ==> request.version@ == version@,
        form.version is None ==> request.version@.len() == 0,
        form.tier matches Some(tier) ==> request.tier@ == tier@,
        form.tier is None ==> request.tier@.len() == 0,
{
}

} // verus!
