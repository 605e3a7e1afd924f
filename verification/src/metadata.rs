//! The `[meta]` section of `deepgram.toml`.

use crate::json::{Json, JsonView};
use crate::reply::{document_reply, Body, BodyView, Reply, ReplyView};
use crate::reply::{INTERNAL_SERVER_ERROR, OK};
use crate::text::optional_text;
use crate::value::{json_text, parse_json, parsed_json};
use vstd::prelude::*;

verus! {

/// Declares `toml::map::Map`, a TOML table.
#[verifier::external_type_specification]
#[verifier::external_body]
#[verifier::reject_recursive_types(K)]
#[verifier::reject_recursive_types(V)]
pub struct ExTomlMap<K, V>(toml::map::Map<K, V>);

/// Declares `toml::Value`, a TOML value.
#[verifier::external_type_specification]
#[verifier::external_body]
pub struct ExTomlValue(toml::Value);

/// Declares `toml::de::Error`, which says why a text is no TOML.
#[verifier::external_type_specification]
#[verifier::external_body]
pub struct ExTomlError(toml::de::Error);

/// The contents of a value, as the JSON text that `serde_json::to_string` writes for it; `None`
/// where it cannot be written as JSON.
pub uninterp spec fn toml_json(value: toml::Value) -> Option<Seq<char>>;

/// The contents of a table: its keys, each with the contents of its value.
pub uninterp spec fn table_sections(
    table: toml::map::Map<String, toml::Value>,
) -> Map<Seq<char>, Option<Seq<char>>>;

/// The contents of an error, as the text that its `Display` writes.
pub uninterp spec fn toml_error_text(error: toml::de::Error) -> Seq<char>;

/// What `toml::from_str` reads in a text: the text of the error where it is no TOML, else the
/// contents of the table, or `None` in their place where some value of the table cannot be held as
/// a `toml::Value`.
pub uninterp spec fn document_sections(content: Seq<char>) -> Result<
    Option<Map<Seq<char>, Option<Seq<char>>>>,
    Seq<char>,
>;

/// Calls `toml::from_str`, first for the keys alone, which fails where the text is no TOML, and
/// then for the whole table. What comes back, an error by its text, depends on the text alone.
#[verifier::external_body]
fn parse_document(content: &str) -> (table: Result<
    Option<toml::map::Map<String, toml::Value>>,
    toml::de::Error,
>)
    ensures
        match table {
            Ok(Some(table)) => document_sections(content@) == Ok::<_, Seq<char>>(
                Some(table_sections(table)),
            ),
            Ok(None) => document_sections(content@) == Ok::<_, Seq<char>>(
                None::<Map<Seq<char>, Option<Seq<char>>>>,
            ),
            Err(error) => document_sections(content@) == Err::<
                Option<Map<Seq<char>, Option<Seq<char>>>>,
                _,
            >(toml_error_text(error)),
        },
{
    toml::from_str::<std::collections::HashMap<String, serde::de::IgnoredAny>>(content)?;
    Ok(toml::from_str(content).ok())
}

/// Calls `toml::map::Map::get`: the value of a key, where the table has the key.
#[verifier::external_body]
fn section<'a>(table: &'a toml::map::Map<String, toml::Value>, key: &str) -> (value: Option<
    &'a toml::Value,
>)
    ensures
        match value {
            Some(value) => table_sections(*table).contains_key(key@)
                && table_sections(*table)[key@] == toml_json(*value),
            None => !table_sections(*table).contains_key(key@),
        },
{
    table.get(key)
}

/// Calls `serde_json::to_string`. Whether it succeeds, and what it writes, depend on the value
/// alone.
#[verifier::external_body]
fn write_json(value: &toml::Value) -> (text: Result<String, serde_json::Error>)
    ensures
        match text {
            Ok(text) => toml_json(*value) == Some(text@),
            Err(_) => toml_json(*value) is None,
        },
{
    serde_json::to_string(value)
}

/// Calls `to_string` on a `toml::de::Error`: the text that its `Display` writes, which depends on
/// the error alone.
#[verifier::external_body]
fn error_text(error: &toml::de::Error) -> (text: String)
    ensures
        text@ == toml_error_text(*error),
{
    error.to_string()
}

/// What there is to say of the `[meta]` section.
#[derive(Debug)]
pub enum Metadata {
    /// The file cannot be read, or is no TOML.
    Unreadable,
    /// The file has no such section.
    Absent,
    /// The section is there and cannot be given as JSON.
    NotJson,
    /// The section.
    Section(serde_json::Value),
}

/// What there is to say of the `[meta]` section, the section by its compact JSON text.
pub enum MetadataView {
    Unreadable,
    Absent,
    NotJson,
    Section(Seq<char>),
}

impl View for Metadata {
    type V = MetadataView;

    open spec fn view(&self) -> MetadataView {
        match *self {
            Metadata::Unreadable => MetadataView::Unreadable,
            Metadata::Absent => MetadataView::Absent,
            Metadata::NotJson => MetadataView::NotJson,
            Metadata::Section(value) => MetadataView::Section(json_text(value)),
        }
    }
}

/// What there is to say of a `[meta]` section, given the JSON text that it is written as. A section
/// that cannot be written is taken as an empty text.
pub open spec fn metadata_from(section: Option<Seq<char>>) -> MetadataView {
    let text = match section {
        Some(text) => text,
        None => Seq::empty(),
    };
    match parsed_json(text) {
        Some(value) => MetadataView::Section(value),
        None => MetadataView::NotJson,
    }
}

/// What there is to say of the `[meta]` section among given sections.
pub open spec fn metadata_in(sections: Map<Seq<char>, Option<Seq<char>>>) -> MetadataView {
    if sections.contains_key("meta"@) {
        metadata_from(sections["meta"@])
    } else {
        MetadataView::Absent
    }
}

/// Takes a `[meta]` section as JSON.
fn take_section(value: &toml::Value) -> (metadata: Metadata)
    ensures
        metadata@ == metadata_from(toml_json(*value)),
{
    let text: String = match write_json(value) {
        Ok(text) => text,
        Err(_) => String::new(),
    };
    match parse_json(text.as_str()) {
        Ok(value) => Metadata::Section(value),
        Err(_) => Metadata::NotJson,
    }
}

/// The answer where the section cannot be given.
pub open spec fn metadata_error(message: Seq<char>) -> ReplyView {
    document_reply(
        INTERNAL_SERVER_ERROR,
        JsonView::object().with("error"@, JsonView::Text("INTERNAL_SERVER_ERROR"@)).with(
            "message"@,
            JsonView::Text(message),
        ),
    )
}

/// The answer to a request for the metadata.
pub open spec fn metadata_answer(metadata: MetadataView) -> ReplyView {
    match metadata {
        MetadataView::Unreadable => metadata_error(
            "Failed to read metadata from deepgram.toml"@,
        ),
        MetadataView::Absent => metadata_error("Missing [meta] section in deepgram.toml"@),
        MetadataView::NotJson => document_reply(OK, JsonView::object()),
        MetadataView::Section(text) => ReplyView { status: OK, body: BodyView::Value(text) },
    }
}

/// Answers that the section cannot be given.
fn metadata_failure(message: &str) -> (reply: Reply)
    ensures
        reply@ == metadata_error(message@),
{
    Reply::document(
        INTERNAL_SERVER_ERROR,
        Json::object().with("error", Json::text("INTERNAL_SERVER_ERROR")).with(
            "message",
            Json::text(message),
        ),
    )
}

/// Answers a request for the metadata.
pub fn answer_metadata(metadata: Metadata) -> (reply: Reply)
    ensures
        reply@ == metadata_answer(metadata@),
{
    match metadata {
        Metadata::Unreadable => metadata_failure("Failed to read metadata from deepgram.toml"),
        Metadata::Absent => metadata_failure("Missing [meta] section in deepgram.toml"),
        Metadata::NotJson => Reply::document(OK, Json::object()),
        Metadata::Section(value) => Reply { status: OK, body: Body::Value(value) },
    }
}

/// An answer to a request for the metadata, and why the file could not be parsed, where that is
/// why.
#[derive(Debug)]
pub struct MetadataAnswer {
    pub reply: Reply,
    pub parse_error: Option<toml::de::Error>,
}

impl MetadataAnswer {
    /// Why the file could not be parsed, in words, where that is why.
    pub fn parse_message(&self) -> (message: Option<String>)
        ensures
            match self.parse_error {
                Some(error) => message matches Some(message) && message@
                    == "Error parsing deepgram.toml: "@ + toml_error_text(error),
                None => message is None,
            },
    {
        match &self.parse_error {
            Some(error) => {
                let mut message: String = "Error parsing deepgram.toml: ".to_string();
                message.append(error_text(error).as_str());
                Some(message)
            },
            None => None,
        }
    }
}

/// How far a request for the metadata has come.
#[derive(Debug)]
pub enum MetadataStep {
    /// It is answered.
    Answer(MetadataAnswer),
    /// The `[meta]` section has to be read alone: the file is TOML, and holds a value that a
    /// `toml::Value` cannot hold.
    ReadMeta,
}

/// Goes on with a request for the metadata once its file was parsed.
pub fn document_read(
    table: Result<Option<toml::map::Map<String, toml::Value>>, toml::de::Error>,
) -> (step: MetadataStep)
    ensures
        match table {
            Ok(Some(table)) => step matches MetadataStep::Answer(answer) && answer.reply@
                == metadata_answer(metadata_in(table_sections(table))) && answer.parse_error
                is None,
            Ok(None) => step == MetadataStep::ReadMeta,
            Err(error) => step matches MetadataStep::Answer(answer) && answer.reply@
                == metadata_answer(MetadataView::Unreadable) && answer.parse_error == Some(error),
        },
{
    match table {
        Ok(Some(table)) => {
            let metadata: Metadata = match section(&table, "meta") {
                Some(value) => take_section(value),
                None => Metadata::Absent,
            };
            MetadataStep::Answer(
                MetadataAnswer { reply: answer_metadata(metadata), parse_error: None },
            )
        },
        Ok(None) => MetadataStep::ReadMeta,
        Err(error) => MetadataStep::Answer(
            MetadataAnswer {
                reply: answer_metadata(Metadata::Unreadable),
                parse_error: Some(error),
            },
        ),
    }
}

/// What a request for the metadata comes to, given what the file holds, which is absent where the
/// file could not be read. Where it could not be parsed, the error that is handed out is the one of
/// this very text.
pub open spec fn metadata_leads_to(step: MetadataStep, content: Option<Seq<char>>) -> bool {
    match content {
        None => step matches MetadataStep::Answer(answer) && answer.reply@ == metadata_answer(
            MetadataView::Unreadable,
        ) && answer.parse_error is None,
        Some(content) => match document_sections(content) {
            Err(text) => step matches MetadataStep::Answer(answer) && answer.reply@
                == metadata_answer(MetadataView::Unreadable) && (answer.parse_error matches Some(
                error,
            ) && toml_error_text(error) == text),
            Ok(Some(sections)) => step matches MetadataStep::Answer(answer) && answer.reply@
                == metadata_answer(metadata_in(sections)) && answer.parse_error is None,
            Ok(None) => step == MetadataStep::ReadMeta,
        },
    }
}

/// Answers a request for the metadata from the content of `deepgram.toml`, which is absent where
/// the file could not be read.
pub fn handle_metadata(content: Option<&str>) -> (step: MetadataStep)
    ensures
        metadata_leads_to(step, optional_text(content)),
{
    match content {
        Some(content) => document_read(parse_document(content)),
        None => MetadataStep::Answer(
            MetadataAnswer { reply: answer_metadata(Metadata::Unreadable), parse_error: None },
        ),
    }
}

/// Answers a request for the metadata once the `[meta]` section was read alone.
pub fn meta_read(meta: Result<Option<toml::Value>, toml::de::Error>) -> (answer: MetadataAnswer)
    ensures
        match meta {
            Ok(Some(value)) => answer.reply@ == metadata_answer(metadata_from(toml_json(value)))
                && answer.parse_error is None,
            Ok(None) => answer.reply@ == metadata_answer(MetadataView::Absent)
                && answer.parse_error is None,
            Err(error) => answer.reply@ == metadata_answer(MetadataView::Unreadable)
                && answer.parse_error == Some(error),
        },
{
    match meta {
        Ok(Some(value)) => MetadataAnswer {
            reply: answer_metadata(take_section(&value)),
            parse_error: None,
        },
        Ok(None) => MetadataAnswer {
            reply: answer_metadata(Metadata::Absent),
            parse_error: None,
        },
        Err(error) => MetadataAnswer {
            reply: answer_metadata(Metadata::Unreadable),
            parse_error: Some(error),
        },
    }
}

/// Whatever comes of the file and of the section, the answer succeeds exactly where there is a
/// section.
pub proof fn metadata_succeeds_with_a_section(metadata: MetadataView)
    ensures
        metadata_answer(metadata).status == OK <==> metadata is Section || metadata is NotJson,
        metadata_answer(metadata).status == INTERNAL_SERVER_ERROR <==> metadata is Unreadable
            || metadata is Absent,
{
}

/// Every section that can be written and read as JSON is answered as itself, however long it is. The
/// empty object is answered only where that fails, a section that cannot be written being read as an
/// empty text. Without the section the server has failed.
pub proof fn section_is_answered_as_itself(sections: Map<Seq<char>, Option<Seq<char>>>)
    ensures
        ({
            let answer = metadata_answer(metadata_in(sections));
            let text = match sections["meta"@] {
                Some(text) => text,
                None => ""@,
            };
            &&& sections.contains_key("meta"@) ==> answer == metadata_answer(
                metadata_from(sections["meta"@]),
            )
            &&& sections.contains_key("meta"@) ==> answer.status == 200
            &&& sections.contains_key("meta"@) ==> (match parsed_json(text) {
                Some(value) => answer.body == BodyView::Value(value),
                None => answer.body == BodyView::Document(JsonView::object()),
            })
            &&& !sections.contains_key("meta"@) ==> answer == metadata_error(
                "Missing [meta] section in deepgram.toml"@,
            )
        }),
{
    reveal_strlit("");
    assert(""@ =~= Seq::empty());
}

/// A section is answered as itself when it was read alone, too.
pub proof fn section_read_alone_is_answered_as_itself(text: Seq<char>)
    ensures
        parsed_json(text) matches Some(value) ==> metadata_answer(metadata_from(Some(text)))
            == (ReplyView { status: 200, body: BodyView::Value(value) }),
        parsed_json(text) is None ==> metadata_answer(metadata_from(Some(text))) == (ReplyView {
            status: 200,
            body: BodyView::Document(JsonView::object()),
        }),
        metadata_from(None) == metadata_from(Some(""@)),
{
    reveal_strlit("");
    assert(""@ =~= Seq::empty());
}

/// A request for the metadata of a file that is TOML is answered with the value that the file's
/// `[meta]` section is written as, and nothing is said of an error.
pub proof fn file_is_answered_with_its_section(
    step: MetadataStep,
    content: Seq<char>,
    sections: Map<Seq<char>, Option<Seq<char>>>,
    text: Seq<char>,
    value: Seq<char>,
)
    requires
        metadata_leads_to(step, Some(content)),
        document_sections(content) == Ok::<_, Seq<char>>(Some(sections)),
        sections.contains_key("meta"@),
        sections["meta"@] == Some(text),
        parsed_json(text) == Some(value),
    ensures
        step matches MetadataStep::Answer(answer) && answer.parse_error is None && answer.reply@
            == (ReplyView { status: 200, body: BodyView::Value(value) }),
{
}

/// A request for the metadata fails where the file could not be read, where it is no TOML, and where
/// it has no `[meta]` section. The error of the file is told where it is no TOML, and only there.
pub proof fn file_without_its_section_is_a_failure(
    step: MetadataStep,
    content: Option<Seq<char>>,
)
    requires
        metadata_leads_to(step, content),
    ensures
        content is None ==> (step matches MetadataStep::Answer(answer) && answer.parse_error is None
            && answer.reply@ == metadata_error("Failed to read metadata from deepgram.toml"@)),
        content matches Some(content) ==> {
            &&& document_sections(content) matches Err(text) ==> (step matches MetadataStep::Answer(
                answer,
            ) && answer.reply@ == metadata_error("Failed to read metadata from deepgram.toml"@) && (
            answer.parse_error matches Some(error) && toml_error_text(error) == text))
            &&& document_sections(content) matches Ok(Some(sections)) ==> !sections.contains_key(
                "meta"@,
            ) ==> (step matches MetadataStep::Answer(answer) && answer.parse_error is None
                && answer.reply@ == metadata_error("Missing [meta] section in deepgram.toml"@))
            &&& document_sections(content) matches Ok(None) ==> step is ReadMeta
        },
{
}

/// A failure is answered with the status 500, the error `INTERNAL_SERVER_ERROR` and its message, and
/// nothing else.
pub proof fn metadata_failure_tells_its_message(message: Seq<char>)
    ensures
        metadata_error(message).status == 500,
        metadata_error(message).body matches BodyView::Document(document) && {
            &&& document is Object
            &&& document.member("error"@) == Some(JsonView::Text("INTERNAL_SERVER_ERROR"@))
            &&& document.member("message"@) == Some(JsonView::Text(message))
            &&& forall|key: Seq<char>| (#[trigger] document.member(key)) is Some ==> key
                == "error"@ || key == "message"@
        },
{
    reveal_strlit("error");
    reveal_strlit("message");
    assert("error"@.len() == 5 && "message"@.len() == 7);
}

/// What there is to say of the section is shown as it is, the section by its text.
pub proof fn metadata_shows_the_section(metadata: Metadata)
    ensures
        metadata matches Metadata::Section(value) ==> metadata@ == MetadataView::Section(
            json_text(value),
        ),
        metadata is Unreadable <==> metadata@ is Unreadable,
        metadata is Absent <==> metadata@ is Absent,
        metadata is NotJson <==> metadata@ is NotJson,
{
}

} // verus!
