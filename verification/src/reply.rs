//! Answers of the server and the error documents that they carry.

use crate::json::{Json, JsonView};
use crate::text::optional_text;
use crate::value::json_text;
use vstd::prelude::*;

verus! {

/// The status of an answer that succeeds.
pub const OK: u16 = 200;

/// The status of an answer to a request that lacks something.
pub const BAD_REQUEST: u16 = 400;

/// The status of an answer to a request without a valid session.
pub const UNAUTHORIZED: u16 = 401;

/// The status of an answer when the server itself fails.
pub const INTERNAL_SERVER_ERROR: u16 = 500;

/// The document that an answer carries.
#[derive(Debug)]
pub enum Body {
    Document(Json),
    Value(serde_json::Value),
}

/// What an answer carries: a document, or the compact JSON text of a value.
pub enum BodyView {
    Document(JsonView),
    Value(Seq<char>),
}

impl View for Body {
    type V = BodyView;

    open spec fn view(&self) -> BodyView {
        match *self {
            Body::Document(document) => BodyView::Document(document@),
            Body::Value(value) => BodyView::Value(json_text(value)),
        }
    }
}

/// An answer: its HTTP status and its body.
#[derive(Debug)]
pub struct Reply {
    pub status: u16,
    pub body: Body,
}

/// What an answer says.
pub struct ReplyView {
    pub status: u16,
    pub body: BodyView,
}

impl View for Reply {
    type V = ReplyView;

    open spec fn view(&self) -> ReplyView {
        ReplyView { status: self.status, body: self.body@ }
    }
}

/// The answer that carries a document.
pub open spec fn document_reply(status: u16, document: JsonView) -> ReplyView {
    ReplyView { status, body: BodyView::Document(document) }
}

impl Reply {
    /// The answer that carries a document.
    pub fn document(status: u16, document: Json) -> (reply: Reply)
        ensures
            reply@ == document_reply(status, document@),
    {
        Reply { status, body: Body::Document(document) }
    }
}

/// The type of the error that a transcription request is answered with.
pub open spec fn error_type(status_code: u16) -> Seq<char> {
    if status_code == 400 {
        "ValidationError"@
    } else {
        "TranscriptionError"@
    }
}

/// The code of an error: the one given, else the usual one for the status.
pub open spec fn error_code(status_code: u16, code: Option<Seq<char>>) -> Seq<char> {
    match code {
        Some(code) => code,
        None => if status_code == 400 {
            "MISSING_INPUT"@
        } else {
            "TRANSCRIPTION_FAILED"@
        },
    }
}

/// The error document of a transcription request.
pub open spec fn error_document(
    message: Seq<char>,
    status_code: u16,
    code: Option<Seq<char>>,
) -> JsonView {
    JsonView::object().with(
        "error"@,
        JsonView::object().with("type"@, JsonView::Text(error_type(status_code))).with(
            "code"@,
            JsonView::Text(error_code(status_code, code)),
        ).with("message"@, JsonView::Text(message)).with(
            "details"@,
            JsonView::object().with("originalError"@, JsonView::Text(message)),
        ),
    )
}

/// Builds the error document of a transcription request, for the frontend to display.
pub fn format_error_response(err_msg: &str, status_code: u16, code: Option<&str>) -> (document: Json)
    ensures
        document@ == error_document(err_msg@, status_code, optional_text(code)),
{
    let err_type: &str = if status_code == 400 {
        "ValidationError"
    } else {
        "TranscriptionError"
    };
    let err_code: &str = match code {
        Some(code) => code,
        None => if status_code == 400 {
            "MISSING_INPUT"
        } else {
            "TRANSCRIPTION_FAILED"
        },
    };
    let details: Json = Json::object().with("originalError", Json::text(err_msg));
    let error: Json = Json::object().with("type", Json::text(err_type)).with(
        "code",
        Json::text(err_code),
    ).with("message", Json::text(err_msg)).with("details", details);
    Json::object().with("error", error)
}

/// The error answer of a transcription request.
pub open spec fn error_reply(
    message: Seq<char>,
    status_code: u16,
    code: Option<Seq<char>>,
) -> ReplyView {
    document_reply(status_code, error_document(message, status_code, code))
}

/// Answers a transcription request with an error.
pub fn reply_with_error(err_msg: &str, status_code: u16, code: &str) -> (reply: Reply)
    ensures
        reply@ == error_reply(err_msg@, status_code, Some(code@)),
{
    Reply::document(status_code, format_error_response(err_msg, status_code, Some(code)))
}

/// Answers a transcription request as a bad one, with a message that ends with the cause of it.
pub fn reply_with_cause(what: &str, cause: &str, code: &str) -> (reply: Reply)
    ensures
        reply@ == error_reply(what@ + cause@, BAD_REQUEST, Some(code@)),
{
    let mut message: String = what.to_string();
    message.append(cause);
    reply_with_error(message.as_str(), BAD_REQUEST, code)
}

/// A document whose `error` member is a text.
pub open spec fn plain_error(message: Seq<char>) -> JsonView {
    JsonView::object().with("error"@, JsonView::Text(message))
}

/// Builds a document whose `error` member is a text.
pub fn plain_error_document(message: &str) -> (document: Json)
    ensures
        document@ == plain_error(message@),
{
    Json::object().with("error", Json::text(message))
}

/// Answers that the server is up.
pub fn handle_health() -> (reply: Reply)
    ensures
        reply@ == document_reply(
            OK,
            JsonView::object().with("status"@, JsonView::Text("ok"@)),
        ),
{
    Reply::document(OK, Json::object().with("status", Json::text("ok")))
}

/// An error document tells type, code and message, and repeats the message as the original error.
pub proof fn error_document_members(
    message: Seq<char>,
    status_code: u16,
    code: Option<Seq<char>>,
)
    ensures
        error_document(message, status_code, code).member("error"@) matches Some(error) && {
            &&& error.member("type"@) == Some(JsonView::Text(error_type(status_code)))
            &&& error.member("code"@) == Some(JsonView::Text(error_code(status_code, code)))
            &&& error.member("message"@) == Some(JsonView::Text(message))
            &&& error.member("details"@) matches Some(details) && details.member("originalError"@)
                == Some(JsonView::Text(message))
        },
{
    reveal_strlit("type");
    reveal_strlit("code");
    reveal_strlit("message");
    reveal_strlit("details");
    assert("type"@[0] != "code"@[0]);
    assert("message"@[0] != "details"@[0]);
}

/// An answer shows its status and its body as they are.
pub proof fn answer_shows_status_and_body(reply: Reply)
    ensures
        reply@.status == reply.status,
        reply.body matches Body::Document(document) ==> reply@.body == BodyView::Document(
            document@,
        ),
        reply.body matches Body::Value(value) ==> reply@.body == BodyView::Value(json_text(value)),
{
}

/// An answer with a document has that status and that document.
pub proof fn document_answer_carries_the_document(status: u16, document: JsonView)
    ensures
        document_reply(status, document).status == status,
        document_reply(status, document).body == BodyView::Document(document),
{
}

/// An error answer of a transcription request has the status that it was given, whatever it is, and
/// an `error` member alone. In it stand a type, which tells bad requests from failures, the code
/// that was given, or the usual one, the message as it was given, and the message once more under
/// `details`; and nothing else.
pub proof fn error_answer_tells_the_error(
    message: Seq<char>,
    status_code: u16,
    code: Option<Seq<char>>,
)
    ensures
        ({
            let reply = error_reply(message, status_code, code);
            &&& reply.status == status_code
            &&& reply.body matches BodyView::Document(document) && {
                &&& document is Object
                &&& forall|key: Seq<char>| (#[trigger] document.member(key)) is Some <==> key
                    == "error"@
                &&& document.member("error"@) matches Some(error) && {
                    &&& error is Object
                    &&& forall|key: Seq<char>| (#[trigger] error.member(key)) is Some <==> key
                        == "type"@ || key == "code"@ || key == "message"@ || key == "details"@
                    &&& error.member("type"@) == Some(
                        JsonView::Text(
                            if status_code == 400 {
                                "ValidationError"@
                            } else {
                                "TranscriptionError"@
                            },
                        ),
                    )
                    &&& error.member("code"@) == Some(
                        JsonView::Text(
                            match code {
                                Some(given) => given,
                                None => if status_code == 400 {
                                    "MISSING_INPUT"@
                                } else {
                                    "TRANSCRIPTION_FAILED"@
                                },
                            },
                        ),
                    )
                    &&& error.member("message"@) == Some(JsonView::Text(message))
                    &&& error.member("details"@) matches Some(details) && details is Object
                        && details.member("originalError"@) == Some(JsonView::Text(message))
                        && forall|key: Seq<char>| (#[trigger] details.member(key)) is Some ==> key
                        == "originalError"@
                }
            }
        }),
{
    reveal_strlit("type");
    reveal_strlit("code");
    reveal_strlit("message");
    reveal_strlit("details");
    assert("type"@.len() == 4 && "code"@.len() == 4);
    assert("message"@.len() == 7 && "details"@.len() == 7);
    assert("type"@[0] != "code"@[0]);
    assert("message"@[0] != "details"@[0]);
}

/// A plain error document holds the message as it was given, under `error`, and nothing else.
pub proof fn plain_error_tells_the_message(message: Seq<char>)
    ensures
        plain_error(message) is Object,
        plain_error(message).member("error"@) == Some(JsonView::Text(message)),
        forall|key: Seq<char>| (#[trigger] plain_error(message).member(key)) is Some ==> key
            == "error"@,
{
}

} // verus!
