//! A transcription request, from its first field to its answer.
//!
//! A request passes through stages. Each stage is a type of its own, and what happens outside (a
//! field of the form, a response, a call) takes it to the next stage or to the answer.

use crate::json::{Json, JsonView};
use crate::options::{build_options, option_settings, settings_of};
use crate::params::{
    requested_model, requested_params, setting, transcription_model, transcription_params, Fields,
};
use crate::reply::{
    document_reply, error_reply, reply_with_cause, reply_with_error, BodyView, Reply, ReplyView,
};
use crate::reply::{BAD_REQUEST, INTERNAL_SERVER_ERROR, OK};
use crate::transcript::{
    first_alternative, first_channel_and_alternative_count, format_transcription_response,
    transcript, transcript_members, NO_RESULTS,
};
use crate::upload::{
    field_refusal, fields_left, form_after, form_of, is_url, source_of, AudioSource, Field,
    FormView, SourceView, UploadForm,
};
use deepgram::common::options::Options;
use vstd::prelude::*;

verus! {

/// A request whose form is being read.
pub struct TranscriptionRequest {
    pub query: Fields,
    pub form: UploadForm,
}

/// A request whose audio is being fetched: where from, and the fields that its parameters are
/// chosen from.
pub struct RemoteAudio {
    pub url: String,
    pub query: Fields,
    pub fields: Fields,
}

/// A request whose audio is being read from a response.
pub struct RemoteBody {
    pub query: Fields,
    pub fields: Fields,
}

/// A request that is ready for Deepgram: its audio, the name of its model, and all its options.
pub struct TranscriptionCall {
    pub audio: Vec<u8>,
    pub model: String,
    pub options: Options,
}

/// What Deepgram is asked for: the audio, the name of the model, and the query parameters.
#[verifier::ext_equal]
pub struct CallView {
    pub audio: Seq<u8>,
    pub model: Seq<char>,
    pub settings: Map<Seq<char>, Seq<char>>,
}

impl View for TranscriptionCall {
    type V = CallView;

    open spec fn view(&self) -> CallView {
        CallView {
            audio: self.audio@,
            model: self.model@,
            settings: option_settings(self.options),
        }
    }
}

/// What Deepgram is asked for, for given audio and given parameters.
pub open spec fn planned_call(
    audio: Seq<u8>,
    query: Map<Seq<char>, String>,
    fields: Map<Seq<char>, String>,
) -> CallView {
    CallView {
        audio,
        model: requested_model(query, fields),
        settings: settings_of(requested_params(query, fields)),
    }
}

/// Makes a request ready for Deepgram, from its audio, its query string and its form.
pub fn plan_call(audio: Vec<u8>, query: &Fields, fields: &Fields) -> (call: TranscriptionCall)
    ensures
        call@ == planned_call(audio@, query@, fields@),
{
    let params: Vec<(String, String)> = transcription_params(query, fields);
    TranscriptionCall {
        audio,
        model: transcription_model(query, fields),
        options: build_options(params.as_slice()),
    }
}

/// What a request comes to once its form is read.
pub enum AfterForm {
    /// Call Deepgram.
    Call(TranscriptionCall),
    /// Fetch the audio.
    Fetch(RemoteAudio),
    /// Answer.
    Answer(Reply),
}

/// What a request comes to once its form is read.
pub enum AfterFormView {
    Call(CallView),
    Fetch {
        url: Seq<char>,
        query: Map<Seq<char>, String>,
        fields: Map<Seq<char>, String>,
    },
    Answer(ReplyView),
}

impl View for AfterForm {
    type V = AfterFormView;

    open spec fn view(&self) -> AfterFormView {
        match *self {
            AfterForm::Call(call) => AfterFormView::Call(call@),
            AfterForm::Fetch(remote) => AfterFormView::Fetch {
                url: remote.url@,
                query: remote.query@,
                fields: remote.fields@,
            },
            AfterForm::Answer(reply) => AfterFormView::Answer(reply@),
        }
    }
}

/// What a request with a given query string and form comes to: the call to Deepgram, the audio to
/// fetch, or the answer.
pub open spec fn form_result(query: Map<Seq<char>, String>, form: FormView) -> AfterFormView {
    match source_of(form) {
        SourceView::Uploaded(audio) => AfterFormView::Call(
            planned_call(audio, query, fields_left(form)),
        ),
        SourceView::Remote(url) => AfterFormView::Fetch { url, query, fields: fields_left(form) },
        SourceView::Refused(reply) => AfterFormView::Answer(reply),
    }
}

/// What came of asking for the next field of the form.
#[derive(Debug)]
pub enum FormEvent {
    /// A field.
    Field(Field),
    /// There is none: the form is over.
    End,
    /// It could not be had.
    Broken,
}

/// How far the form of a request is read.
pub enum FormStep {
    /// Ask for the next field.
    ReadOn(TranscriptionRequest),
    /// The form is done with.
    Done(AfterForm),
}

/// How far the form of a request is read.
pub enum FormStepView {
    ReadOn { query: Map<Seq<char>, String>, form: FormView },
    Done(AfterFormView),
}

impl View for FormStep {
    type V = FormStepView;

    open spec fn view(&self) -> FormStepView {
        match *self {
            FormStep::ReadOn(request) => FormStepView::ReadOn {
                query: request.query@,
                form: request.form@,
            },
            FormStep::Done(next) => FormStepView::Done(next@),
        }
    }
}

/// What one event does to a request whose form is being read. A field is taken in, unless it ends
/// the request; a form that breaks off is over, as one that ends.
pub open spec fn form_step(
    query: Map<Seq<char>, String>,
    form: FormView,
    event: FormEvent,
) -> FormStepView {
    match event {
        FormEvent::Field(field) => match field_refusal(field) {
            Some(reply) => FormStepView::Done(AfterFormView::Answer(reply)),
            None => FormStepView::ReadOn { query, form: form_after(form, field) },
        },
        FormEvent::End | FormEvent::Broken => FormStepView::Done(form_result(query, form)),
    }
}

/// What a request comes to by given events, in this order. Once its form is done with, no further
/// event counts.
pub open spec fn after_events(
    query: Map<Seq<char>, String>,
    form: FormView,
    events: Seq<FormEvent>,
) -> FormStepView
    decreases events.len(),
{
    if events.len() == 0 {
        FormStepView::ReadOn { query, form }
    } else {
        match form_step(query, form, events[0]) {
            FormStepView::ReadOn { query, form } => after_events(query, form, events.drop_first()),
            FormStepView::Done(next) => FormStepView::Done(next),
        }
    }
}

impl TranscriptionRequest {
    /// A request of which only the query string is known.
    pub fn new(query: Fields) -> (request: Self)
        ensures
            request.query == query,
            request.form@ == (FormView { audio: None, fields: Map::empty() }),
    {
        TranscriptionRequest { query, form: UploadForm::new() }
    }

    /// Goes on with what came of asking for the next field of the form.
    pub fn form_event(self, event: FormEvent) -> (step: FormStep)
        ensures
            step@ == form_step(self.query@, self.form@, event),
    {
        let TranscriptionRequest { query, form } = self;
        match event {
            FormEvent::Field(field) => {
                let mut form: UploadForm = form;
                match form.add_field(field) {
                    Some(reply) => FormStep::Done(AfterForm::Answer(reply)),
                    None => FormStep::ReadOn(TranscriptionRequest { query, form }),
                }
            },
            FormEvent::End | FormEvent::Broken => FormStep::Done(after_form(query, form)),
        }
    }
}

/// Goes on with a request once its form is read.
fn after_form(query: Fields, form: UploadForm) -> (next: AfterForm)
    ensures
        next@ == form_result(query@, form@),
{
    let (source, fields) = form.finish();
    match source {
        AudioSource::Uploaded(audio) => AfterForm::Call(plan_call(audio, &query, &fields)),
        AudioSource::Remote(url) => AfterForm::Fetch(RemoteAudio { url, query, fields }),
        AudioSource::Refused(reply) => AfterForm::Answer(reply),
    }
}

/// How long fetching the audio may take, in seconds.
pub const FETCH_TIMEOUT_SECS: u64 = 30;

/// The answer where the audio cannot be fetched.
pub open spec fn fetch_error(message: Seq<char>) -> ReplyView {
    error_reply(message, BAD_REQUEST, Some("URL_FETCH_FAILED"@))
}

/// What came of asking for the audio.
#[derive(Debug)]
pub enum Fetched {
    /// A response with this status, whose text is this.
    Response(u16, String),
    /// No response, for this reason.
    Failure(String),
}

/// The answer where asking for the audio fails: there is none where the status is one of success.
pub open spec fn fetch_refusal(fetched: Fetched) -> Option<ReplyView> {
    match fetched {
        Fetched::Response(status, text) => if 200 <= status < 300 {
            None
        } else {
            Some(fetch_error("Failed to fetch audio from URL: HTTP "@ + text@))
        },
        Fetched::Failure(error) => Some(fetch_error("Failed to fetch audio from URL: "@ + error@)),
    }
}

impl RemoteAudio {
    /// Goes on once the audio was asked for: the response is read, or the request is answered.
    pub fn fetched(self, fetched: Fetched) -> (next: Result<RemoteBody, Reply>)
        ensures
            match fetch_refusal(fetched) {
                None => next matches Ok(body) && body.query == self.query && body.fields
                    == self.fields,
                Some(reply) => next matches Err(answer) && answer@ == reply,
            },
    {
        match fetched {
            Fetched::Response(status, text) => if 200 <= status && status < 300 {
                Ok(RemoteBody { query: self.query, fields: self.fields })
            } else {
                Err(
                    reply_with_cause(
                        "Failed to fetch audio from URL: HTTP ",
                        text.as_str(),
                        "URL_FETCH_FAILED",
                    ),
                )
            },
            Fetched::Failure(error) => Err(
                reply_with_cause(
                    "Failed to fetch audio from URL: ",
                    error.as_str(),
                    "URL_FETCH_FAILED",
                ),
            ),
        }
    }
}

impl RemoteBody {
    /// Goes on once the response was read: Deepgram is called with whatever it held, or the request
    /// is answered.
    pub fn read(self, body: Result<Vec<u8>, String>) -> (next: Result<TranscriptionCall, Reply>)
        ensures
            match body {
                Ok(audio) => next matches Ok(call) && call@ == planned_call(
                    audio@,
                    self.query@,
                    self.fields@,
                ),
                Err(error) => next matches Err(answer) && answer@ == fetch_error(
                    "Failed to read audio from URL: "@ + error@,
                ),
            },
    {
        match body {
            Ok(audio) => Ok(plan_call(audio, &self.query, &self.fields)),
            Err(error) => Err(
                reply_with_cause(
                    "Failed to read audio from URL: ",
                    error.as_str(),
                    "URL_FETCH_FAILED",
                ),
            ),
        }
    }
}

/// The media type under which audio is sent to Deepgram.
pub const AUDIO_MIME_TYPE: &'static str = "application/octet-stream";

/// Why Deepgram gave no transcription, with the text of the cause.
#[derive(Debug)]
pub enum CallFailure {
    /// The client could not be made.
    Client(String),
    /// Deepgram answered with an error.
    Api(String),
    /// The request failed otherwise.
    Request(String),
    /// The response could not be written as JSON.
    Response(String),
}

/// A failure in words.
pub open spec fn failure_text(failure: CallFailure) -> Seq<char> {
    match failure {
        CallFailure::Client(cause) => "Failed to initialize Deepgram client: "@ + cause@,
        CallFailure::Api(body) => "Deepgram API returned an error: "@ + body@,
        CallFailure::Request(cause) => "Deepgram API request failed: "@ + cause@,
        CallFailure::Response(cause) => "Failed to serialize Deepgram response: "@ + cause@,
    }
}

impl CallFailure {
    /// The failure in words.
    pub fn message(&self) -> (message: String)
        ensures
            message@ == failure_text(*self),
    {
        let (what, cause): (&str, &String) = match self {
            CallFailure::Client(cause) => ("Failed to initialize Deepgram client: ", cause),
            CallFailure::Api(body) => ("Deepgram API returned an error: ", body),
            CallFailure::Request(cause) => ("Deepgram API request failed: ", cause),
            CallFailure::Response(cause) => ("Failed to serialize Deepgram response: ", cause),
        };
        let mut message: String = what.to_string();
        message.append(cause.as_str());
        message
    }
}

/// The answer to a transcription request that Deepgram responded to.
pub open spec fn transcription_answer(response: JsonView, model: Seq<char>) -> ReplyView {
    match first_alternative(response) {
        Some(alternative) => document_reply(OK, transcript(response, alternative, model)),
        None => error_reply(NO_RESULTS@, INTERNAL_SERVER_ERROR, Some("TRANSCRIPTION_FAILED"@)),
    }
}

/// The answer to a transcription request that Deepgram did not fulfil. The cause stays inside.
pub open spec fn transcription_failure() -> ReplyView {
    error_reply(
        "An error occurred during transcription"@,
        INTERNAL_SERVER_ERROR,
        Some("TRANSCRIPTION_FAILED"@),
    )
}

/// Answers a transcription request with what came of the call to Deepgram.
pub fn answer_transcription(outcome: &Result<Json, CallFailure>, model: &str) -> (reply: Reply)
    ensures
        reply@ == (match *outcome {
            Ok(response) => transcription_answer(response@, model@),
            Err(_) => transcription_failure(),
        }),
{
    match outcome {
        Ok(response) => match format_transcription_response(response, model) {
            Ok(document) => Reply::document(OK, document),
            Err(message) => reply_with_error(
                message.as_str(),
                INTERNAL_SERVER_ERROR,
                "TRANSCRIPTION_FAILED",
            ),
        },
        Err(_) => reply_with_error(
            "An error occurred during transcription",
            INTERNAL_SERVER_ERROR,
            "TRANSCRIPTION_FAILED",
        ),
    }
}

/// Deepgram is asked for the same whether the audio was uploaded or fetched: the URL field has no
/// part in it.
pub proof fn source_does_not_change_the_call(
    audio: Seq<u8>,
    query: Map<Seq<char>, String>,
    form: FormView,
)
    ensures
        planned_call(audio, query, fields_left(form)) == planned_call(audio, query, form.fields),
{
    crate::params::url_is_no_parameter(query, form.fields);
}

/// A request that ends before Deepgram is called is answered as a bad request.
pub proof fn early_answers_are_bad_requests(field: Field, form: FormView, fetched: Fetched)
    ensures
        field_refusal(field) matches Some(reply) ==> reply.status == BAD_REQUEST,
        source_of(form) matches SourceView::Refused(reply) ==> reply.status == BAD_REQUEST,
        fetch_refusal(fetched) matches Some(reply) ==> reply.status == BAD_REQUEST,
{
}

/// Once Deepgram has responded, the answer succeeds exactly where the response holds a
/// transcription; otherwise the server has failed.
pub proof fn answer_succeeds_with_a_transcription(response: JsonView, model: Seq<char>)
    ensures
        transcription_answer(response, model).status == OK <==> first_alternative(
            response,
        ) is Some,
        transcription_answer(response, model).status == INTERNAL_SERVER_ERROR
            <==> first_alternative(response) is None,
        transcription_failure().status == INTERNAL_SERVER_ERROR,
{
}

/// A form that breaks off after some events is read as one that ends there: what the request comes
/// to is the same.
pub proof fn broken_form_is_read_as_ended(
    query: Map<Seq<char>, String>,
    form: FormView,
    events: Seq<FormEvent>,
)
    ensures
        after_events(query, form, events.push(FormEvent::Broken)) == after_events(
            query,
            form,
            events.push(FormEvent::End),
        ),
    decreases events.len(),
{
    let broken = events.push(FormEvent::Broken);
    let ended = events.push(FormEvent::End);
    if events.len() > 0 {
        let rest = events.drop_first();
        assert(broken.drop_first() =~= rest.push(FormEvent::Broken));
        assert(ended.drop_first() =~= rest.push(FormEvent::End));
        assert(broken[0] == events[0] && ended[0] == events[0]);
        if let FormStepView::ReadOn { query: next_query, form: next_form } = form_step(
            query,
            form,
            events[0],
        ) {
            broken_form_is_read_as_ended(next_query, next_form, rest);
        }
    }
}

/// A text field that could not be read counts as absent, wherever it stands: what the request comes
/// to is the same without it.
pub proof fn unreadable_text_counts_as_absent(
    query: Map<Seq<char>, String>,
    form: FormView,
    before: Seq<FormEvent>,
    name: Option<String>,
    after: Seq<FormEvent>,
)
    ensures
        after_events(
            query,
            form,
            before.push(FormEvent::Field(Field::Text(name, None))) + after,
        ) == after_events(query, form, before + after),
    decreases before.len(),
{
    let unreadable = FormEvent::Field(Field::Text(name, None));
    let with = before.push(unreadable) + after;
    let without = before + after;
    if before.len() == 0 {
        assert(with[0] == unreadable);
        assert(with.drop_first() =~= after);
        assert(without =~= after);
    } else {
        let rest = before.drop_first();
        assert(with.drop_first() =~= rest.push(unreadable) + after);
        assert(without.drop_first() =~= rest + after);
        assert(with[0] == before[0] && without[0] == before[0]);
        if let FormStepView::ReadOn { query: next_query, form: next_form } = form_step(
            query,
            form,
            before[0],
        ) {
            unreadable_text_counts_as_absent(next_query, next_form, rest, name, after);
        }
    }
}

/// A request with a file that is not empty calls Deepgram with that file, byte for byte, and with
/// what the query string and the form ask for.
pub proof fn uploaded_file_is_sent(query: Map<Seq<char>, String>, form: FormView, audio: Seq<u8>)
    requires
        form.audio == Some(audio),
        audio.len() > 0,
    ensures
        form_result(query, form) matches AfterFormView::Call(call) && {
            &&& call.audio == audio
            &&& call.model == setting(query, form.fields, "model"@, "nova-3"@)
            &&& call.settings == settings_of(requested_params(query, form.fields))
        },
{
}

/// A request without a file that is not empty, and with a URL, fetches from that URL, as it was
/// given, and keeps the query string and the other fields. A text that is no URL, and neither a file
/// nor a URL, is answered as a bad request.
pub proof fn remote_audio_is_asked_for(query: Map<Seq<char>, String>, form: FormView)
    requires
        form.audio is Some ==> form.audio->0.len() == 0,
    ensures
        ({
            let given = form.fields.contains_key("url"@) && form.fields["url"@]@.len() > 0;
            let url = form.fields["url"@]@;
            &&& given && is_url(url) ==> form_result(query, form) == (AfterFormView::Fetch {
                url,
                query,
                fields: form.fields.remove("url"@),
            })
            &&& given && !is_url(url) ==> form_result(query, form) == AfterFormView::Answer(
                error_reply("Invalid URL format"@, 400, Some("INVALID_URL"@)),
            )
            &&& !given ==> form_result(query, form) == AfterFormView::Answer(
                error_reply("Either file or url must be provided"@, 400, Some("MISSING_INPUT"@)),
            )
        }),
{
}

/// Deepgram is sent the audio that there is, byte for byte, and asked for the model by the name that
/// the request gives it.
pub proof fn call_keeps_audio_and_model(
    audio: Seq<u8>,
    query: Map<Seq<char>, String>,
    fields: Map<Seq<char>, String>,
)
    ensures
        planned_call(audio, query, fields).audio == audio,
        planned_call(audio, query, fields).model == setting(query, fields, "model"@, "nova-3"@),
        planned_call(audio, query, fields).settings == settings_of(
            requested_params(query, fields),
        ),
{
}

/// The events of a form that brings given fields.
pub open spec fn events_of(fields: Seq<Field>) -> Seq<FormEvent> {
    fields.map_values(|field: Field| FormEvent::Field(field))
}

/// No field is a file that could not be read.
pub open spec fn files_are_readable(fields: Seq<Field>) -> bool {
    forall|i: int|
        0 <= i < fields.len() ==> !(#[trigger] fields[i] matches Field::File(Err(_)))
}

/// Reading fields one by one comes to the form that they bring together.
proof fn lemma_fields_are_read(
    query: Map<Seq<char>, String>,
    before: Seq<Field>,
    fields: Seq<Field>,
    after: Seq<FormEvent>,
)
    requires
        files_are_readable(fields),
    ensures
        after_events(query, form_of(before), events_of(fields) + after) == after_events(
            query,
            form_of(before + fields),
            after,
        ),
    decreases fields.len(),
{
    let events = events_of(fields) + after;
    if fields.len() == 0 {
        assert(events =~= after);
        assert(before + fields =~= before);
    } else {
        let rest = fields.drop_first();
        let longer = before.push(fields[0]);
        assert(events[0] == FormEvent::Field(fields[0]));
        assert(!(fields[0] matches Field::File(Err(_))));
        assert(longer.drop_last() =~= before);
        assert(form_of(longer) == form_after(form_of(before), fields[0]));
        assert(events.drop_first() =~= events_of(rest) + after);
        assert(longer + rest =~= before + fields);
        assert forall|i: int| 0 <= i < rest.len() implies !(#[trigger] rest[i] matches Field::File(
            Err(_),
        )) by {
            assert(rest[i] == fields[i + 1]);
        }
        lemma_fields_are_read(query, longer, rest, after);
    }
}

/// A form is read to its end, field by field: what the request comes to is decided on all that its
/// fields brought, whether the form ends or breaks off.
pub proof fn form_is_read_to_its_end(
    query: Map<Seq<char>, String>,
    fields: Seq<Field>,
    last: FormEvent,
)
    requires
        files_are_readable(fields),
        last is End || last is Broken,
    ensures
        after_events(
            query,
            (FormView { audio: None, fields: Map::empty() }),
            events_of(fields).push(last),
        ) == FormStepView::Done(form_result(query, form_of(fields))),
{
    let after = seq![last];
    assert(events_of(fields).push(last) =~= events_of(fields) + after);
    assert(Seq::<Field>::empty() + fields =~= fields);
    lemma_fields_are_read(query, Seq::empty(), fields, after);
    assert(after[0] == last);
}

/// A file that could not be read ends the request there and then, with an answer that tells why,
/// whatever came before it and whatever would come after it.
pub proof fn unreadable_file_ends_the_request(
    query: Map<Seq<char>, String>,
    before: Seq<Field>,
    error: String,
    after: Seq<FormEvent>,
)
    requires
        files_are_readable(before),
    ensures
        after_events(
            query,
            (FormView { audio: None, fields: Map::empty() }),
            events_of(before).push(FormEvent::Field(Field::File(Err(error)))) + after,
        ) == FormStepView::Done(
            AfterFormView::Answer(
                error_reply(
                    "Failed to read uploaded file: "@ + error@,
                    400,
                    Some("MISSING_INPUT"@),
                ),
            ),
        ),
{
    let event = FormEvent::Field(Field::File(Err(error)));
    let rest = seq![event] + after;
    assert(events_of(before).push(event) + after =~= events_of(before) + rest);
    assert(Seq::<Field>::empty() + before =~= before);
    lemma_fields_are_read(query, Seq::empty(), before, rest);
    assert(rest[0] == event);
}

/// The audio is read from every response with a status from 200 to 299. Any other status, and no
/// response, is answered as a bad request that tells the status, or the reason.
pub proof fn success_alone_is_read(status: u16, text: String, error: String)
    ensures
        200 <= status <= 299 ==> fetch_refusal(Fetched::Response(status, text)) is None,
        status < 200 || status > 299 ==> fetch_refusal(Fetched::Response(status, text)) == Some(
            error_reply(
                "Failed to fetch audio from URL: HTTP "@ + text@,
                400,
                Some("URL_FETCH_FAILED"@),
            ),
        ),
        fetch_refusal(Fetched::Failure(error)) == Some(
            error_reply(
                "Failed to fetch audio from URL: "@ + error@,
                400,
                Some("URL_FETCH_FAILED"@),
            ),
        ),
        fetch_error(error@) == error_reply(error@, 400, Some("URL_FETCH_FAILED"@)),
{
}

/// A failure in words is what failed, and then the whole cause.
pub proof fn failure_tells_its_cause(cause: String)
    ensures
        failure_text(CallFailure::Client(cause)) == "Failed to initialize Deepgram client: "@
            + cause@,
        failure_text(CallFailure::Api(cause)) == "Deepgram API returned an error: "@ + cause@,
        failure_text(CallFailure::Request(cause)) == "Deepgram API request failed: "@ + cause@,
        failure_text(CallFailure::Response(cause)) == "Failed to serialize Deepgram response: "@
            + cause@,
{
}

/// Where Deepgram responds with an alternative, the frontend is answered with the text and the words
/// of the first one of the first channel, and with the name of the model.
pub proof fn transcription_is_answered(
    response: JsonView,
    results: JsonView,
    channels: Seq<JsonView>,
    alternatives: Seq<JsonView>,
    model: Seq<char>,
)
    requires
        response.member("results"@) == Some(results),
        results.member("channels"@) == Some(JsonView::Array(channels)),
        channels.len() > 0,
        channels[0].member("alternatives"@) == Some(JsonView::Array(alternatives)),
        alternatives.len() > 0,
    ensures
        ({
            let answer = transcription_answer(response, model);
            &&& answer.status == 200
            &&& answer.body matches BodyView::Document(document) && {
                &&& document.member("transcript"@) == (match alternatives[0].member(
                    "transcript"@,
                ) {
                    Some(text) => Some(text),
                    None => Some(JsonView::Text(Seq::empty())),
                })
                &&& document.member("words"@) == (match alternatives[0].member("words"@) {
                    Some(words) => Some(words),
                    None => Some(JsonView::Array(Seq::empty())),
                })
                &&& document.member("metadata"@) matches Some(metadata) && metadata.member(
                    "model_name"@,
                ) == Some(JsonView::Text(model))
            }
        }),
{
    first_channel_and_alternative_count(response, results, channels, alternatives);
    transcript_members(response, alternatives[0], model);
}

/// A response without an alternative, and a call that failed, whatever its cause, are answered as
/// failures of the server, each with its own message.
pub proof fn failed_transcription_is_answered(response: JsonView, model: Seq<char>)
    ensures
        first_alternative(response) is None ==> transcription_answer(response, model)
            == error_reply(
            "No transcription results returned from Deepgram"@,
            500,
            Some("TRANSCRIPTION_FAILED"@),
        ),
        transcription_failure() == error_reply(
            "An error occurred during transcription"@,
            500,
            Some("TRANSCRIPTION_FAILED"@),
        ),
{
}

/// A call shows its audio, its model and its options as they are.
pub proof fn call_shows_what_is_sent(call: TranscriptionCall)
    ensures
        call@.audio == call.audio@,
        call@.model == call.model@,
        call@.settings == option_settings(call.options),
{
}

/// A step shows the request that is read on, the call, the audio to fetch or the answer as it is.
pub proof fn step_shows_what_is_next(step: FormStep, next: AfterForm)
    ensures
        step matches FormStep::ReadOn(request) ==> step@ == (FormStepView::ReadOn {
            query: request.query@,
            form: request.form@,
        }),
        step matches FormStep::Done(done) ==> step@ == FormStepView::Done(done@),
        next matches AfterForm::Call(call) ==> next@ == AfterFormView::Call(call@),
        next matches AfterForm::Fetch(remote) ==> next@ == (AfterFormView::Fetch {
            url: remote.url@,
            query: remote.query@,
            fields: remote.fields@,
        }),
        next matches AfterForm::Answer(reply) ==> next@ == AfterFormView::Answer(reply@),
{
}

/// Fetching may take half a minute, and audio is sent as plain bytes, of whatever kind it is.
pub proof fn audio_is_fetched_and_sent_alike()
    ensures
        2 * FETCH_TIMEOUT_SECS == 60,
        AUDIO_MIME_TYPE@ == "application/octet-stream"@,
{
}

} // verus!
