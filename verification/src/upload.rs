//! The form of a transcription request, and the audio that it names.

use crate::params::Fields;
use crate::reply::{
    error_reply, reply_with_cause, reply_with_error, Reply, ReplyView, BAD_REQUEST,
};
use crate::text::{optional_text, same_text};
use vstd::prelude::*;

verus! {

/// The most bytes that a request may hold: audio is large.
pub const MAX_BODY_BYTES: usize = 52_428_800;

/// How a field of the form is read.
#[derive(Debug, Clone, Copy, PartialEq, Eq)]
pub enum FieldKind {
    /// As bytes: it is the audio file.
    File,
    /// As text.
    Text,
}

/// How a field of a given name is read: the field `file` is the audio.
pub fn field_kind(name: Option<&str>) -> (kind: FieldKind)
    ensures
        kind == (if optional_text(name) == Some("file"@) {
            FieldKind::File
        } else {
            FieldKind::Text
        }),
{
    match name {
        Some(name) => if same_text(name, "file") {
            FieldKind::File
        } else {
            FieldKind::Text
        },
        None => FieldKind::Text,
    }
}

/// A field of the form, as reading it turned out.
#[derive(Debug)]
pub enum Field {
    /// The audio file, or why it could not be read.
    File(Result<Vec<u8>, String>),
    /// A text field: its name, where it has one, and its text, where it could be read.
    Text(Option<String>, Option<String>),
}

/// What a form has brought so far.
pub struct UploadForm {
    pub audio: Option<Vec<u8>>,
    pub fields: Fields,
}

/// What a form has brought so far.
#[verifier::ext_equal]
pub struct FormView {
    pub audio: Option<Seq<u8>>,
    pub fields: Map<Seq<char>, String>,
}

/// The contents of a file that may be absent.
pub open spec fn audio_view(audio: Option<Vec<u8>>) -> Option<Seq<u8>> {
    match audio {
        Some(bytes) => Some(bytes@),
        None => None,
    }
}

impl View for UploadForm {
    type V = FormView;

    open spec fn view(&self) -> FormView {
        FormView { audio: audio_view(self.audio), fields: self.fields@ }
    }
}

/// The name of a text field; empty where it has none.
pub open spec fn name_text(name: Option<String>) -> Seq<char> {
    match name {
        Some(name) => name@,
        None => Seq::empty(),
    }
}

/// A form after one field more. A later file, and a later text of the same name, takes the place
/// of an earlier one; a text that could not be read is passed over.
pub open spec fn form_after(form: FormView, field: Field) -> FormView {
    match field {
        Field::File(Ok(bytes)) => FormView { audio: Some(bytes@), fields: form.fields },
        Field::Text(name, Some(text)) => FormView {
            audio: form.audio,
            fields: form.fields.insert(name_text(name), text),
        },
        _ => form,
    }
}

/// The answer that ends the request at a field: there is one where the file could not be read.
pub open spec fn field_refusal(field: Field) -> Option<ReplyView> {
    match field {
        Field::File(Err(error)) => Some(
            error_reply(
                "Failed to read uploaded file: "@ + error@,
                BAD_REQUEST,
                Some("MISSING_INPUT"@),
            ),
        ),
        _ => None,
    }
}

/// An answer that may be absent.
pub open spec fn optional_reply(reply: Option<Reply>) -> Option<ReplyView> {
    match reply {
        Some(reply) => Some(reply@),
        None => None,
    }
}

impl UploadForm {
    /// A form that has brought nothing yet.
    pub fn new() -> (form: Self)
        ensures
            form@ == (FormView { audio: None, fields: Map::empty() }),
    {
        UploadForm { audio: None, fields: Fields::new() }
    }

    /// Takes one field more, and gives the answer that ends the request, where it ends there.
    pub fn add_field(&mut self, field: Field) -> (refusal: Option<Reply>)
        ensures
            final(self)@ == form_after(old(self)@, field),
            optional_reply(refusal) == field_refusal(field),
    {
        match field {
            Field::File(Ok(bytes)) => {
                self.audio = Some(bytes);
                None
            },
            Field::File(Err(error)) => Some(
                reply_with_cause(
                    "Failed to read uploaded file: ",
                    error.as_str(),
                    "MISSING_INPUT",
                ),
            ),
            Field::Text(name, Some(text)) => {
                let name: String = match name {
                    Some(name) => name,
                    None => String::new(),
                };
                self.fields.insert(name, text);
                None
            },
            Field::Text(_, None) => None,
        }
    }
}

/// Whether `reqwest::Url::parse` takes a text for a URL.
pub uninterp spec fn is_url(text: Seq<char>) -> bool;

/// Calls `reqwest::Url::parse` and tells whether it succeeds, which depends on the text alone.
#[verifier::external_body]
fn url_parses(text: &str) -> (parses: bool)
    ensures
        parses == is_url(text@),
{
    reqwest::Url::parse(text).is_ok()
}

/// Where the audio of a request comes from.
#[derive(Debug)]
pub enum AudioSource {
    /// It was uploaded.
    Uploaded(Vec<u8>),
    /// It has to be fetched from this URL.
    Remote(String),
    /// There is none: the request is answered.
    Refused(Reply),
}

/// Where the audio of a request comes from.
pub enum SourceView {
    Uploaded(Seq<u8>),
    Remote(Seq<char>),
    Refused(ReplyView),
}

impl View for AudioSource {
    type V = SourceView;

    open spec fn view(&self) -> SourceView {
        match *self {
            AudioSource::Uploaded(bytes) => SourceView::Uploaded(bytes@),
            AudioSource::Remote(url) => SourceView::Remote(url@),
            AudioSource::Refused(reply) => SourceView::Refused(reply@),
        }
    }
}

/// The source that a URL field gives, given whether it is a URL.
pub open spec fn url_source(url: Seq<char>, valid: bool) -> SourceView {
    if valid {
        SourceView::Remote(url)
    } else {
        SourceView::Refused(error_reply("Invalid URL format"@, BAD_REQUEST, Some("INVALID_URL"@)))
    }
}

/// Where the audio comes from: a file that is not empty goes before a URL.
pub open spec fn source_of(form: FormView) -> SourceView {
    if form.audio is Some && form.audio->0.len() > 0 {
        SourceView::Uploaded(form.audio->0)
    } else if form.fields.contains_key("url"@) && form.fields["url"@]@.len() > 0 {
        url_source(form.fields["url"@]@, is_url(form.fields["url"@]@))
    } else {
        SourceView::Refused(
            error_reply(
                "Either file or url must be provided"@,
                BAD_REQUEST,
                Some("MISSING_INPUT"@),
            ),
        )
    }
}

/// Decides on a URL field, given whether it is a URL.
pub fn accept_url(url: String, valid: bool) -> (source: AudioSource)
    ensures
        source@ == url_source(url@, valid),
{
    if valid {
        AudioSource::Remote(url)
    } else {
        AudioSource::Refused(reply_with_error("Invalid URL format", BAD_REQUEST, "INVALID_URL"))
    }
}

/// The fields that are left once the audio's source is known: the URL field is taken out, unless a
/// file makes it needless.
pub open spec fn fields_left(form: FormView) -> Map<Seq<char>, String> {
    if form.audio is Some && form.audio->0.len() > 0 {
        form.fields
    } else {
        form.fields.remove("url"@)
    }
}

impl UploadForm {
    /// Decides where the audio comes from, and hands on the other fields.
    pub fn finish(self) -> (result: (AudioSource, Fields))
        ensures
            result.0@ == source_of(self@),
            result.1@ == fields_left(self@),
    {
        let UploadForm { audio, fields } = self;
        let mut fields: Fields = fields;
        if let Some(bytes) = audio {
            if bytes.len() > 0 {
                return (AudioSource::Uploaded(bytes), fields);
            }
        }
        let url: Option<String> = match fields.get("url") {
            Some(url) => Some(url.as_str().to_string()),
            None => None,
        };
        fields.remove("url");
        if let Some(url) = url {
            if !url.as_str().is_empty() {
                let valid: bool = url_parses(url.as_str());
                return (accept_url(url, valid), fields);
            }
        }
        let refusal: Reply = reply_with_error(
            "Either file or url must be provided",
            BAD_REQUEST,
            "MISSING_INPUT",
        );
        (AudioSource::Refused(refusal), fields)
    }
}

/// What a form brings with given fields, in this order.
pub open spec fn form_of(fields: Seq<Field>) -> FormView
    decreases fields.len(),
{
    if fields.len() == 0 {
        FormView { audio: None, fields: Map::empty() }
    } else {
        form_after(form_of(fields.drop_last()), fields.last())
    }
}

/// A file that was read.
pub open spec fn is_readable_file(field: Field) -> bool {
    field matches Field::File(Ok(_))
}

/// A text field of a given name that was read.
pub open spec fn is_readable_text(field: Field, name: Seq<char>) -> bool {
    field matches Field::Text(own, Some(_)) && name_text(own) == name
}

/// The last file that was read is the audio, whatever other fields stand around it.
pub proof fn last_file_counts(fields: Seq<Field>, i: int)
    requires
        0 <= i < fields.len(),
        is_readable_file(fields[i]),
        forall|j: int| i < j < fields.len() ==> !is_readable_file(#[trigger] fields[j]),
    ensures
        form_of(fields).audio == Some(fields[i]->File_0->Ok_0@),
    decreases fields.len(),
{
    let rest = fields.drop_last();
    if i < fields.len() - 1 {
        assert(!is_readable_file(fields[fields.len() - 1]));
        assert forall|j: int| i < j < rest.len() implies !is_readable_file(#[trigger] rest[j]) by {
            assert(rest[j] == fields[j]);
        }
        last_file_counts(rest, i);
    }
}

/// The last text of a name that was read is the field of that name.
pub proof fn last_text_counts(fields: Seq<Field>, i: int, name: Seq<char>)
    requires
        0 <= i < fields.len(),
        is_readable_text(fields[i], name),
        forall|j: int| i < j < fields.len() ==> !is_readable_text(#[trigger] fields[j], name),
    ensures
        form_of(fields).fields.contains_key(name),
        form_of(fields).fields[name] == fields[i]->Text_1->0,
    decreases fields.len(),
{
    let rest = fields.drop_last();
    if i < fields.len() - 1 {
        assert(!is_readable_text(fields[fields.len() - 1], name));
        assert forall|j: int| i < j < rest.len() implies !is_readable_text(
            #[trigger] rest[j],
            name,
        ) by {
            assert(rest[j] == fields[j]);
        }
        last_text_counts(rest, i, name);
    }
}

/// It does not matter whether a file comes before a text field or after it.
pub proof fn file_and_text_may_change_places(form: FormView, file: Field, text: Field)
    requires
        file is File,
        text is Text,
    ensures
        form_after(form_after(form, file), text) == form_after(form_after(form, text), file),
{
}

/// A file that is not empty goes before a URL.
pub proof fn file_goes_before_url(form: FormView)
    requires
        form.audio is Some,
        form.audio->0.len() > 0,
    ensures
        source_of(form) == SourceView::Uploaded(form.audio->0),
{
}

/// Without a file and without a URL, empty ones counting as none, the request is refused.
pub proof fn audio_is_required(form: FormView)
    requires
        form.audio is Some ==> form.audio->0.len() == 0,
        form.fields.contains_key("url"@) ==> form.fields["url"@]@.len() == 0,
    ensures
        source_of(form) == SourceView::Refused(
            error_reply(
                "Either file or url must be provided"@,
                BAD_REQUEST,
                Some("MISSING_INPUT"@),
            ),
        ),
{
}

/// Without a file, or with an empty one, the audio of a request comes from the URL that it gives:
/// every URL is fetched from as it was given, and a text that is no URL is refused.
pub proof fn every_url_is_fetched_from(form: FormView, url: Seq<char>)
    requires
        form.audio is Some ==> form.audio->0.len() == 0,
        form.fields.contains_key("url"@),
        form.fields["url"@]@ == url,
        url.len() > 0,
    ensures
        is_url(url) ==> source_of(form) == SourceView::Remote(url),
        !is_url(url) ==> source_of(form) == SourceView::Refused(
            error_reply("Invalid URL format"@, 400, Some("INVALID_URL"@)),
        ),
{
}

/// Whether a URL is fetched from rests on nothing but whether it is one.
pub proof fn valid_url_is_accepted(url: Seq<char>)
    ensures
        url_source(url, true) == SourceView::Remote(url),
        url_source(url, false) == SourceView::Refused(
            error_reply("Invalid URL format"@, 400, Some("INVALID_URL"@)),
        ),
{
}

/// A file that was read becomes the audio, byte for byte, and changes no text field.
pub proof fn file_becomes_the_audio(form: FormView, bytes: Vec<u8>)
    ensures
        form_after(form, Field::File(Ok(bytes))).audio == Some(bytes@),
        form_after(form, Field::File(Ok(bytes))).fields == form.fields,
{
}

/// A text that was read becomes the field of its name, the empty name where it has none, and changes
/// neither the audio nor any other field.
pub proof fn text_becomes_the_field_of_its_name(
    form: FormView,
    name: Option<String>,
    text: String,
)
    ensures
        ({
            let after = form_after(form, Field::Text(name, Some(text)));
            let key = match name {
                Some(name) => name@,
                None => ""@,
            };
            &&& after.audio == form.audio
            &&& after.fields.contains_key(key) && after.fields[key] == text
            &&& forall|other: Seq<char>|
                other != key ==> #[trigger] after.fields.contains_key(other)
                    == form.fields.contains_key(other) && (form.fields.contains_key(other) ==>
                    after.fields[other] == form.fields[other])
        }),
{
    reveal_strlit("");
    assert(""@ =~= Seq::empty());
}

/// A field that could not be read changes nothing in the form.
pub proof fn unreadable_field_changes_nothing(form: FormView, error: String, name: Option<String>)
    ensures
        form_after(form, Field::File(Err(error))) == form,
        form_after(form, Field::Text(name, None)) == form,
{
}

/// A file that could not be read is the one field that ends a request, and its answer tells why.
pub proof fn unreadable_file_alone_is_refused(field: Field)
    ensures
        field matches Field::File(Err(error)) ==> field_refusal(field) == Some(
            error_reply("Failed to read uploaded file: "@ + error@, 400, Some("MISSING_INPUT"@)),
        ),
        !(field matches Field::File(Err(_))) ==> field_refusal(field) is None,
{
}

/// The other fields go on as they are, whichever source the audio has.
pub proof fn other_fields_go_on(form: FormView, key: Seq<char>)
    requires
        key != "url"@,
    ensures
        fields_left(form).contains_key(key) == form.fields.contains_key(key),
        form.fields.contains_key(key) ==> fields_left(form)[key] == form.fields[key],
{
}

/// A form shows its file, where there is one, byte for byte, and its fields.
pub proof fn form_shows_file_and_fields(form: UploadForm)
    ensures
        form.audio matches Some(bytes) ==> form@.audio == Some(bytes@),
        form.audio is None ==> form@.audio is None,
        form@.fields == form.fields@,
{
}

/// A source shows its audio, its URL or its answer as it is.
pub proof fn source_shows_what_it_is(source: AudioSource)
    ensures
        source matches AudioSource::Uploaded(bytes) ==> source@ == SourceView::Uploaded(bytes@),
        source matches AudioSource::Remote(url) ==> source@ == SourceView::Remote(url@),
        source matches AudioSource::Refused(reply) ==> source@ == SourceView::Refused(reply@),
{
}

/// A request may hold fifty mebibytes.
pub proof fn requests_may_hold_fifty_mebibytes()
    ensures
        MAX_BODY_BYTES == 50 * 1024 * 1024,
{
}

} // verus!
