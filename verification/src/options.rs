//! The options that a transcription request sends to Deepgram.

use crate::params::{
    feature_keys, feature_params, field_text, filled_field_is_the_setting, lemma_parameter_names,
    parameter_names, params_view, query_goes_before_form, requested_model, requested_params,
    setting, settings_are_filled, DEFAULT_LANGUAGE, DEFAULT_MODEL, DEFAULT_SMART_FORMAT,
};
use crate::text::same_text;
use deepgram::common::options::{Language, Model, Options, OptionsBuilder};
use vstd::prelude::*;

verus! {

/// Declares `deepgram::common::options::OptionsBuilder`, options that are being gathered.
#[verifier::external_type_specification]
#[verifier::external_body]
pub struct ExOptionsBuilder(OptionsBuilder);

/// Declares `deepgram::common::options::Options`, the options of one request.
#[verifier::external_type_specification]
#[verifier::external_body]
pub struct ExOptions(Options);

/// The contents of a builder: the query parameters that were set, each with its value. Left aside
/// is `utt_split`, which belongs to `utterances`.
pub uninterp spec fn gathered(builder: OptionsBuilder) -> Map<Seq<char>, Seq<char>>;

/// The contents of options: the query parameters that a request sends, each with its value. Left
/// aside is `utt_split`, which belongs to `utterances`.
pub uninterp spec fn option_settings(options: Options) -> Map<Seq<char>, Seq<char>>;

/// The id under which Deepgram knows the model of a given name. Five models have a second name that
/// ends with `-general`; any other name is an id itself.
pub open spec fn model_id(name: Seq<char>) -> Seq<char> {
    if name == "nova-3-general"@ {
        "nova-3"@
    } else if name == "nova-2-general"@ {
        "nova-2"@
    } else if name == "nova-general"@ {
        "nova"@
    } else if name == "enhanced-general"@ {
        "enhanced"@
    } else if name == "base-general"@ {
        "base"@
    } else {
        name
    }
}

/// The text of a switch in a query string.
pub open spec fn switch_text(on: bool) -> Seq<char> {
    if on {
        "true"@
    } else {
        "false"@
    }
}

/// No query parameter at all.
pub open spec fn no_settings() -> Map<Seq<char>, Seq<char>> {
    Map::empty()
}

/// `Options::builder`: nothing is set yet.
pub assume_specification[ Options::builder ]() -> (builder: OptionsBuilder)
    ensures
        gathered(builder) == no_settings(),
;

/// `OptionsBuilder::build`: the options hold what was gathered.
pub assume_specification[ OptionsBuilder::build ](builder: OptionsBuilder) -> (options: Options)
    ensures
        option_settings(options) == gathered(builder),
;

/// `OptionsBuilder::smart_format`: sets `smart_format`.
pub assume_specification[ OptionsBuilder::smart_format ](
    builder: OptionsBuilder,
    smart_format: bool,
) -> (result: OptionsBuilder)
    ensures
        gathered(result) == gathered(builder).insert("smart_format"@, switch_text(smart_format)),
;

/// `OptionsBuilder::punctuate`: sets `punctuate`.
pub assume_specification[ OptionsBuilder::punctuate ](
    builder: OptionsBuilder,
    punctuate: bool,
) -> (result: OptionsBuilder)
    ensures
        gathered(result) == gathered(builder).insert("punctuate"@, switch_text(punctuate)),
;

/// `OptionsBuilder::diarize`: sets `diarize`.
pub assume_specification[ OptionsBuilder::diarize ](
    builder: OptionsBuilder,
    diarize: bool,
) -> (result: OptionsBuilder)
    ensures
        gathered(result) == gathered(builder).insert("diarize"@, switch_text(diarize)),
;

/// `OptionsBuilder::paragraphs`: sets `paragraphs`.
pub assume_specification[ OptionsBuilder::paragraphs ](
    builder: OptionsBuilder,
    paragraphs: bool,
) -> (result: OptionsBuilder)
    ensures
        gathered(result) == gathered(builder).insert("paragraphs"@, switch_text(paragraphs)),
;

/// `OptionsBuilder::utterances`: sets `utterances`.
pub assume_specification[ OptionsBuilder::utterances ](
    builder: OptionsBuilder,
    utterances: bool,
) -> (result: OptionsBuilder)
    ensures
        gathered(result) == gathered(builder).insert("utterances"@, switch_text(utterances)),
;

/// `OptionsBuilder::filler_words`: sets `filler_words`.
pub assume_specification[ OptionsBuilder::filler_words ](
    builder: OptionsBuilder,
    filler_words: bool,
) -> (result: OptionsBuilder)
    ensures
        gathered(result) == gathered(builder).insert("filler_words"@, switch_text(filler_words)),
;

/// Calls `OptionsBuilder::model` with the model that `Model::from` makes of a name: sets `model`
/// to the id of that model, which is the name but for five names that end with `-general`.
#[verifier::external_body]
fn set_model(builder: OptionsBuilder, name: String) -> (result: OptionsBuilder)
    ensures
        gathered(result) == gathered(builder).insert("model"@, model_id(name@)),
{
    builder.model(Model::from(name))
}

/// Calls `OptionsBuilder::language` with the language that `Language::from` makes of a tag: sets
/// `language` to the tag, which every language is sent as.
#[verifier::external_body]
fn set_language(builder: OptionsBuilder, tag: String) -> (result: OptionsBuilder)
    ensures
        gathered(result) == gathered(builder).insert("language"@, tag@),
{
    builder.language(Language::from(tag))
}

/// The value of the first parameter of a given name, unless that value is empty.
pub open spec fn lookup(params: Seq<(Seq<char>, Seq<char>)>, key: Seq<char>) -> Option<Seq<char>>
    decreases params.len(),
{
    if params.len() == 0 {
        None
    } else if params[0].0 == key {
        if params[0].1.len() > 0 {
            Some(params[0].1)
        } else {
            None
        }
    } else {
        lookup(params.drop_first(), key)
    }
}

/// Settings, and one more where a parameter gives it.
pub open spec fn set_where_given(
    settings: Map<Seq<char>, Seq<char>>,
    key: Seq<char>,
    value: Option<Seq<char>>,
) -> Map<Seq<char>, Seq<char>> {
    match value {
        Some(value) => settings.insert(key, value),
        None => settings,
    }
}

/// The state of a switch: on for `true`, off for any other text that is not empty.
pub open spec fn switch_setting(
    params: Seq<(Seq<char>, Seq<char>)>,
    key: Seq<char>,
) -> Option<Seq<char>> {
    match lookup(params, key) {
        Some(value) => Some(switch_text(value == "true"@)),
        None => None,
    }
}

/// The id of the model that the parameters ask for.
pub open spec fn model_setting(params: Seq<(Seq<char>, Seq<char>)>) -> Option<Seq<char>> {
    match lookup(params, "model"@) {
        Some(name) => Some(model_id(name)),
        None => None,
    }
}

/// What the options hold for given parameters.
pub open spec fn settings_of(params: Seq<(Seq<char>, Seq<char>)>) -> Map<Seq<char>, Seq<char>> {
    let settings = set_where_given(no_settings(), "model"@, model_setting(params));
    let settings = set_where_given(settings, "language"@, lookup(params, "language"@));
    let settings = set_where_given(
        settings,
        "smart_format"@,
        switch_setting(params, "smart_format"@),
    );
    let settings = set_where_given(settings, "punctuate"@, switch_setting(params, "punctuate"@));
    let settings = set_where_given(settings, "diarize"@, switch_setting(params, "diarize"@));
    let settings = set_where_given(settings, "paragraphs"@, switch_setting(params, "paragraphs"@));
    let settings = set_where_given(settings, "utterances"@, switch_setting(params, "utterances"@));
    set_where_given(settings, "filler_words"@, switch_setting(params, "filler_words"@))
}

/// The value of the first parameter of a given name, unless that value is empty.
fn find_param<'a>(params: &'a [(String, String)], key: &str) -> (value: Option<&'a str>)
    ensures
        match value {
            Some(value) => lookup(params_view(params@), key@) == Some(value@),
            None => lookup(params_view(params@), key@) is None,
        },
{
    let ghost all = params_view(params@);
    assert(all.skip(0) =~= all);
    let mut i: usize = 0;
    while i < params.len()
        invariant
            all == params_view(params@),
            i <= params@.len(),
            lookup(all, key@) == lookup(all.skip(i as int), key@),
        decreases params@.len() - i,
    {
        assert(all.skip(i as int)[0] == (params@[i as int].0@, params@[i as int].1@));
        if same_text(params[i].0.as_str(), key) {
            let value: &str = params[i].1.as_str();
            return if value.is_empty() {
                None
            } else {
                Some(value)
            };
        }
        assert(all.skip(i as int).drop_first() =~= all.skip(i + 1));
        i += 1;
    }
    None
}

/// The state of a switch, where the parameters give it.
fn find_switch(params: &[(String, String)], key: &str) -> (on: Option<bool>)
    ensures
        match on {
            Some(on) => switch_setting(params_view(params@), key@) == Some(switch_text(on)),
            None => switch_setting(params_view(params@), key@) is None,
        },
{
    match find_param(params, key) {
        Some(value) => Some(same_text(value, "true")),
        None => None,
    }
}

/// Builds the options of a request from its parameters.
pub fn build_options(params: &[(String, String)]) -> (options: Options)
    ensures
        option_settings(options) == settings_of(params_view(params@)),
{
    let mut builder: OptionsBuilder = Options::builder();
    if let Some(model) = find_param(params, "model") {
        builder = set_model(builder, model.to_string());
    }
    if let Some(language) = find_param(params, "language") {
        builder = set_language(builder, language.to_string());
    }
    if let Some(on) = find_switch(params, "smart_format") {
        builder = builder.smart_format(on);
    }
    if let Some(on) = find_switch(params, "punctuate") {
        builder = builder.punctuate(on);
    }
    if let Some(on) = find_switch(params, "diarize") {
        builder = builder.diarize(on);
    }
    if let Some(on) = find_switch(params, "paragraphs") {
        builder = builder.paragraphs(on);
    }
    if let Some(on) = find_switch(params, "utterances") {
        builder = builder.utterances(on);
    }
    if let Some(on) = find_switch(params, "filler_words") {
        builder = builder.filler_words(on);
    }
    builder.build()
}

/// A parameter of a given name is among the parameters.
spec fn has_param(params: Seq<(Seq<char>, Seq<char>)>, key: Seq<char>) -> bool {
    exists|i: int| 0 <= i < params.len() && (#[trigger] params[i]).0 == key
}

/// A value, unless it is empty.
spec fn filled(value: Seq<char>) -> Option<Seq<char>> {
    if value.len() > 0 {
        Some(value)
    } else {
        None
    }
}

/// A parameter at the end is found where no other of its name stands before it.
proof fn lemma_lookup_push(
    params: Seq<(Seq<char>, Seq<char>)>,
    param: (Seq<char>, Seq<char>),
    key: Seq<char>,
)
    ensures
        lookup(params.push(param), key) == (if has_param(params, key) {
            lookup(params, key)
        } else if param.0 == key {
            filled(param.1)
        } else {
            None
        }),
        !has_param(params, key) ==> lookup(params, key) is None,
    decreases params.len(),
{
    let longer = params.push(param);
    if params.len() == 0 {
        assert(longer[0] == param);
        assert(lookup(longer.drop_first(), key) is None);
    } else {
        let rest = params.drop_first();
        assert(longer.drop_first() =~= rest.push(param));
        lemma_lookup_push(rest, param, key);
        if params[0].0 != key {
            assert(has_param(params, key) == has_param(rest, key)) by {
                if has_param(params, key) {
                    let i = choose|i: int|
                        0 <= i < params.len() && (#[trigger] params[i]).0 == key;
                    assert(rest[i - 1].0 == key);
                }
                if has_param(rest, key) {
                    let i = choose|i: int| 0 <= i < rest.len() && (#[trigger] rest[i]).0 == key;
                    assert(params[i + 1].0 == key);
                }
            }
        } else {
            assert(params[0].0 == key);
        }
    }
}

/// Looking for a feature finds its setting, where the request speaks of it.
proof fn lemma_feature_lookup(
    query: Map<Seq<char>, String>,
    form: Map<Seq<char>, String>,
    keys: Seq<Seq<char>>,
    key: Seq<char>,
)
    requires
        keys.no_duplicates(),
    ensures
        lookup(feature_params(query, form, keys), key) == (if keys.contains(key) {
            filled(setting(query, form, key, Seq::empty()))
        } else {
            None
        }),
        has_param(feature_params(query, form, keys), key) ==> keys.contains(key),
    decreases keys.len(),
{
    let params = feature_params(query, form, keys);
    if keys.len() > 0 {
        let rest = keys.drop_last();
        let before = feature_params(query, form, rest);
        let last = keys.last();
        let value = setting(query, form, last, Seq::empty());
        assert(rest.no_duplicates());
        lemma_feature_lookup(query, form, rest, key);
        lemma_lookup_push(before, (last, value), key);
        assert(keys.contains(key) == (rest.contains(key) || key == last)) by {
            if rest.contains(key) {
                let i = choose|i: int| 0 <= i < rest.len() && rest[i] == key;
                assert(keys[i] == key);
            }
            if keys.contains(key) && key != last {
                let i = choose|i: int| 0 <= i < keys.len() && keys[i] == key;
                assert(rest[i] == key);
            }
        }
        if key == last {
            assert(!rest.contains(key)) by {
                if rest.contains(key) {
                    let i = choose|i: int| 0 <= i < rest.len() && rest[i] == key;
                    assert(keys[i] == keys[keys.len() - 1]);
                }
            }
        }
        if has_param(params, key) {
            let i = choose|i: int| 0 <= i < params.len() && (#[trigger] params[i]).0 == key;
            if i < before.len() {
                assert(before[i] == params[i]);
                assert(has_param(before, key));
            }
        }
    }
}

/// Looking for a parameter of a transcription finds what the request sets it to.
proof fn lemma_requested_lookup(
    query: Map<Seq<char>, String>,
    form: Map<Seq<char>, String>,
    key: Seq<char>,
)
    ensures
        lookup(requested_params(query, form), key) == (if key == "model"@ {
            Some(requested_model(query, form))
        } else if key == "language"@ {
            Some(setting(query, form, "language"@, DEFAULT_LANGUAGE@))
        } else if key == "smart_format"@ {
            Some(setting(query, form, "smart_format"@, DEFAULT_SMART_FORMAT@))
        } else if feature_keys().contains(key) {
            filled(setting(query, form, key, Seq::empty()))
        } else {
            None
        }),
{
    reveal_strlit("nova-3");
    reveal_strlit("en");
    reveal_strlit("true");
    settings_are_filled(query, form, "model"@, DEFAULT_MODEL@);
    settings_are_filled(query, form, "language"@, DEFAULT_LANGUAGE@);
    settings_are_filled(query, form, "smart_format"@, DEFAULT_SMART_FORMAT@);
    lemma_parameter_names();
    let names = parameter_names();
    assert(names[0] == "model"@ && names[1] == "language"@ && names[2] == "smart_format"@);
    assert(feature_keys().no_duplicates()) by {
        assert forall|i: int, j: int|
            0 <= i < feature_keys().len() && 0 <= j < feature_keys().len() && i
                != j implies feature_keys()[i] != feature_keys()[j] by {
            assert(feature_keys()[i] == names[i + 3] && feature_keys()[j] == names[j + 3]);
        }
    }
    lemma_feature_lookup(query, form, feature_keys(), key);
    let params = requested_params(query, form);
    let features = feature_params(query, form, feature_keys());
    assert(params.drop_first().drop_first().drop_first() =~= features);
    assert(params.drop_first()[0] == params[1]);
    assert(params.drop_first().drop_first()[0] == params[2]);
    reveal_with_fuel(lookup, 4);
}

/// What a request asks for is what Deepgram is asked for: its model, language and formatting
/// always, each feature exactly where the request speaks of it, and nothing else.
pub proof fn request_reaches_deepgram(
    query: Map<Seq<char>, String>,
    form: Map<Seq<char>, String>,
)
    ensures
        ({
            let sent = settings_of(requested_params(query, form));
            let formatting = setting(query, form, "smart_format"@, DEFAULT_SMART_FORMAT@);
            &&& sent.contains_key("model"@) && sent["model"@] == model_id(
                requested_model(query, form),
            )
            &&& sent.contains_key("language"@) && sent["language"@] == setting(
                query,
                form,
                "language"@,
                DEFAULT_LANGUAGE@,
            )
            &&& sent.contains_key("smart_format"@) && sent["smart_format"@] == switch_text(
                formatting == "true"@,
            )
            &&& forall|i: int|
                0 <= i < feature_keys().len() ==> {
                    let value = setting(
                        query,
                        form,
                        #[trigger] feature_keys()[i],
                        Seq::empty(),
                    );
                    &&& sent.contains_key(feature_keys()[i]) <==> value.len() > 0
                    &&& value.len() > 0 ==> sent[feature_keys()[i]] == switch_text(
                        value == "true"@,
                    )
                }
            &&& forall|key: Seq<char>| #[trigger]
                sent.contains_key(key) ==> parameter_names().contains(key)
        }),
{
    let params = requested_params(query, form);
    let names = parameter_names();
    lemma_parameter_names();
    assert(names[0] == "model"@ && names[1] == "language"@ && names[2] == "smart_format"@);
    assert(names[3] == "diarize"@ && names[4] == "punctuate"@ && names[5] == "paragraphs"@);
    assert(names[6] == "utterances"@ && names[7] == "filler_words"@);
    assert(feature_keys()[0] == "diarize"@ && feature_keys()[1] == "punctuate"@);
    assert(feature_keys()[2] == "paragraphs"@ && feature_keys()[3] == "utterances"@);
    assert(feature_keys()[4] == "filler_words"@);
    lemma_requested_lookup(query, form, "model"@);
    lemma_requested_lookup(query, form, "language"@);
    lemma_requested_lookup(query, form, "smart_format"@);
    lemma_requested_lookup(query, form, "diarize"@);
    lemma_requested_lookup(query, form, "punctuate"@);
    lemma_requested_lookup(query, form, "paragraphs"@);
    lemma_requested_lookup(query, form, "utterances"@);
    lemma_requested_lookup(query, form, "filler_words"@);
}

/// A request that names no model is sent with the default model, under its own name.
pub proof fn default_model_is_sent_by_name(
    query: Map<Seq<char>, String>,
    form: Map<Seq<char>, String>,
)
    requires
        field_text(query, "model"@).len() == 0,
        field_text(form, "model"@).len() == 0,
    ensures
        settings_of(requested_params(query, form)).contains_key("model"@),
        settings_of(requested_params(query, form))["model"@] == "nova-3"@,
{
    request_reaches_deepgram(query, form);
    query_goes_before_form(query, form, "model"@, DEFAULT_MODEL@);
    reveal_strlit("nova-3");
    reveal_strlit("nova-3-general");
    reveal_strlit("nova-2-general");
    reveal_strlit("nova-general");
    reveal_strlit("enhanced-general");
    reveal_strlit("base-general");
    assert("nova-3"@.len() == 6);
    assert("nova-3-general"@.len() == 14 && "nova-2-general"@.len() == 14);
    assert("nova-general"@.len() == 12 && "enhanced-general"@.len() == 16);
    assert("base-general"@.len() == 12);
}

/// No two parameters share a name.
pub open spec fn distinct_names(params: Seq<(Seq<char>, Seq<char>)>) -> bool {
    forall|i: int, j: int|
        0 <= i < j < params.len() ==> (#[trigger] params[i]).0 != (#[trigger] params[j]).0
}

/// None of the parameters is one that a transcription has.
pub open spec fn unknown_names(params: Seq<(Seq<char>, Seq<char>)>) -> bool {
    forall|i: int|
        0 <= i < params.len() ==> !parameter_names().contains((#[trigger] params[i]).0)
}

/// Where all the parameters of a name have one value, that value is found.
proof fn lemma_lookup_unique(params: Seq<(Seq<char>, Seq<char>)>, key: Seq<char>, value: Seq<char>)
    requires
        has_param(params, key),
        forall|i: int|
            0 <= i < params.len() && (#[trigger] params[i]).0 == key ==> params[i].1 == value,
    ensures
        lookup(params, key) == filled(value),
    decreases params.len(),
{
    if params[0].0 != key {
        let rest = params.drop_first();
        let i = choose|i: int| 0 <= i < params.len() && (#[trigger] params[i]).0 == key;
        assert(rest[i - 1].0 == key);
        assert forall|j: int|
            0 <= j < rest.len() && (#[trigger] rest[j]).0 == key implies rest[j].1 == value by {
            assert(rest[j] == params[j + 1]);
        }
        lemma_lookup_unique(rest, key, value);
    }
}

/// A parameter of a transcription is found with one and the same value in a list with distinct
/// names and in any list that holds the same and unknown names besides.
proof fn lemma_lookup_unordered(
    params: Seq<(Seq<char>, Seq<char>)>,
    unknown: Seq<(Seq<char>, Seq<char>)>,
    others: Seq<(Seq<char>, Seq<char>)>,
    key: Seq<char>,
)
    requires
        distinct_names(params),
        unknown_names(unknown),
        others.to_multiset() == (params + unknown).to_multiset(),
        parameter_names().contains(key),
    ensures
        lookup(others, key) == lookup(params, key),
{
    let both = params + unknown;
    both.to_multiset_ensures();
    others.to_multiset_ensures();
    assert forall|j: int| 0 <= j < others.len() && (#[trigger] others[j]).0 == key implies exists|
        i: int,
    |
        0 <= i < params.len() && #[trigger] params[i] == others[j] by {
        assert(others.contains(others[j]));
        assert(others.to_multiset().count(others[j]) > 0);
        assert(both.to_multiset().count(others[j]) > 0);
        assert(both.contains(others[j]));
        let i = choose|i: int| 0 <= i < both.len() && both[i] == others[j];
        if i >= params.len() {
            assert(unknown[i - params.len()] == others[j]);
        }
        assert(params[i] == others[j]);
    }
    if has_param(params, key) {
        let i = choose|i: int| 0 <= i < params.len() && (#[trigger] params[i]).0 == key;
        assert(both[i] == params[i]);
        assert(both.contains(params[i]));
        assert(both.to_multiset().count(params[i]) > 0);
        assert(others.to_multiset().count(params[i]) > 0);
        assert(others.contains(params[i]));
        let j = choose|j: int| 0 <= j < others.len() && others[j] == params[i];
        assert(others[j].0 == key);
        lemma_lookup_unique(params, key, params[i].1);
        lemma_lookup_unique(others, key, params[i].1);
    } else {
        lemma_lookup_push(params, (key, key), key);
        lemma_lookup_push(others, (key, key), key);
        if has_param(others, key) {
            let j = choose|j: int| 0 <= j < others.len() && (#[trigger] others[j]).0 == key;
            let i = choose|i: int| 0 <= i < params.len() && #[trigger] params[i] == others[j];
            assert(params[i].0 == key);
        }
    }
}

/// Neither the order of parameters with distinct names nor a parameter of an unknown name matters:
/// any list that holds the same parameters, and unknown ones besides, makes the same options.
pub proof fn order_and_unknown_names_do_not_matter(
    params: Seq<(Seq<char>, Seq<char>)>,
    unknown: Seq<(Seq<char>, Seq<char>)>,
    others: Seq<(Seq<char>, Seq<char>)>,
)
    requires
        distinct_names(params),
        unknown_names(unknown),
        others.to_multiset() == (params + unknown).to_multiset(),
    ensures
        settings_of(others) == settings_of(params),
{
    let names = parameter_names();
    assert(names[0] == "model"@ && names[1] == "language"@ && names[2] == "smart_format"@);
    assert(names[3] == "diarize"@ && names[4] == "punctuate"@ && names[5] == "paragraphs"@);
    assert(names[6] == "utterances"@ && names[7] == "filler_words"@);
    assert forall|i: int| 0 <= i < names.len() implies lookup(others, #[trigger] names[i])
        == lookup(params, names[i]) by {
        lemma_lookup_unordered(params, unknown, others, names[i]);
    }
}

/// The first parameter of a name is the one that is found, with its value as it is, unless that is
/// empty. Where there is none of the name, none is found.
pub proof fn first_parameter_of_a_name_is_found(
    params: Seq<(Seq<char>, Seq<char>)>,
    i: int,
    key: Seq<char>,
)
    requires
        0 <= i <= params.len(),
        forall|j: int| 0 <= j < i ==> (#[trigger] params[j]).0 != key,
        i < params.len() ==> params[i].0 == key,
    ensures
        i < params.len() && params[i].1.len() > 0 ==> lookup(params, key) == Some(params[i].1),
        i == params.len() || params[i].1.len() == 0 ==> lookup(params, key) is None,
    decreases params.len(),
{
    if params.len() > 0 && i > 0 {
        let rest = params.drop_first();
        assert(params[0].0 != key);
        assert forall|j: int| 0 <= j < i - 1 implies (#[trigger] rest[j]).0 != key by {
            assert(rest[j] == params[j + 1]);
        }
        first_parameter_of_a_name_is_found(rest, i - 1, key);
    }
}

/// The options hold the language as the parameters give it, the model by its id, and each switch as
/// `true` where its value is `true` and as `false` where it is anything else; and nothing that the
/// parameters do not give.
pub proof fn options_hold_what_the_parameters_give(
    params: Seq<(Seq<char>, Seq<char>)>,
    key: Seq<char>,
)
    ensures
        ({
            let sent = settings_of(params);
            let is_switch = key == "smart_format"@ || key == "punctuate"@ || key == "diarize"@
                || key == "paragraphs"@ || key == "utterances"@ || key == "filler_words"@;
            &&& sent.contains_key(key) <==> (is_switch || key == "model"@ || key == "language"@)
                && lookup(params, key) is Some
            &&& lookup(params, key) matches Some(value) ==> {
                &&& key == "model"@ ==> sent[key] == model_id(value)
                &&& key == "language"@ ==> sent[key] == value
                &&& is_switch && value == "true"@ ==> sent[key] == "true"@
                &&& is_switch && value != "true"@ ==> sent[key] == "false"@
            }
        }),
{
    lemma_parameter_names();
    let names = parameter_names();
    assert(names[0] == "model"@ && names[1] == "language"@ && names[2] == "smart_format"@);
    assert(names[3] == "diarize"@ && names[4] == "punctuate"@ && names[5] == "paragraphs"@);
    assert(names[6] == "utterances"@ && names[7] == "filler_words"@);
}

/// A model is sent by the name that it was asked for by, but for five names that end with
/// `-general`, which are sent without that ending.
pub proof fn model_is_sent_by_its_name(name: Seq<char>)
    ensures
        ({
            let short = name == "nova-3"@ || name == "nova-2"@ || name == "nova"@ || name
                == "enhanced"@ || name == "base"@;
            &&& short ==> model_id(name + "-general"@) == name
            &&& (forall|stem: Seq<char>| #![auto] name != stem + "-general"@) ==> model_id(name)
                == name
            &&& !short ==> model_id(name + "-general"@) == name + "-general"@
        }),
{
    reveal_strlit("-general");
    reveal_strlit("nova-3");
    reveal_strlit("nova-2");
    reveal_strlit("nova");
    reveal_strlit("enhanced");
    reveal_strlit("base");
    reveal_strlit("nova-3-general");
    reveal_strlit("nova-2-general");
    reveal_strlit("nova-general");
    reveal_strlit("enhanced-general");
    reveal_strlit("base-general");
    assert("nova-3-general"@ =~= "nova-3"@ + "-general"@);
    assert("nova-2-general"@ =~= "nova-2"@ + "-general"@);
    assert("nova-general"@ =~= "nova"@ + "-general"@);
    assert("enhanced-general"@ =~= "enhanced"@ + "-general"@);
    assert("base-general"@ =~= "base"@ + "-general"@);
    let long = name + "-general"@;
    assert(long.take(name.len() as int) =~= name);
    assert("nova-3-general"@.take(6) =~= "nova-3"@ && "nova-2-general"@.take(6) =~= "nova-2"@);
    assert("nova-general"@.take(4) =~= "nova"@ && "base-general"@.take(4) =~= "base"@);
    assert("enhanced-general"@.take(8) =~= "enhanced"@);
    assert("nova-3"@ != "nova-2"@) by {
        assert("nova-3"@[5] != "nova-2"@[5]);
    }
    assert("nova"@ != "base"@) by {
        assert("nova"@[0] != "base"@[0]);
    }
    if long == "nova-2-general"@ {
        assert("nova-2-general"@[5] != "nova-3-general"@[5]);
    }
    if long == "base-general"@ {
        assert("base-general"@[0] != "nova-general"@[0]);
    }
}

/// A field that a request fills reaches Deepgram: the language as it was given, whatever it is, the
/// model by its id, and a switch as `true` where it was given as `true` and as `false` where it was
/// given as anything else. The query string goes before the form. Where the request leaves a field
/// out, or empty, the model is `nova-3`, the language `en` and the formatting `true`, and a feature
/// is not sent at all.
pub proof fn filled_field_reaches_deepgram(
    query: Map<Seq<char>, String>,
    form: Map<Seq<char>, String>,
    key: Seq<char>,
)
    ensures
        ({
            let sent = settings_of(requested_params(query, form));
            let text = if query.contains_key(key) && query[key]@.len() > 0 {
                query[key]@
            } else if form.contains_key(key) && form[key]@.len() > 0 {
                form[key]@
            } else {
                Seq::empty()
            };
            let is_feature = key == "punctuate"@ || key == "diarize"@ || key == "paragraphs"@ || key
                == "utterances"@ || key == "filler_words"@;
            &&& key == "language"@ ==> sent.contains_key(key) && sent[key] == (if text.len() > 0 {
                text
            } else {
                "en"@
            })
            &&& key == "model"@ ==> sent.contains_key(key) && sent[key] == (if text.len() > 0 {
                model_id(text)
            } else {
                "nova-3"@
            })
            &&& key == "smart_format"@ ==> sent.contains_key(key) && sent[key] == (if text.len()
                == 0 || text == "true"@ {
                "true"@
            } else {
                "false"@
            })
            &&& is_feature ==> (sent.contains_key(key) <==> text.len() > 0) && (text.len() > 0 ==>
                sent[key] == (if text == "true"@ {
                "true"@
            } else {
                "false"@
            }))
            &&& !is_feature && key != "language"@ && key != "model"@ && key != "smart_format"@ ==>
                !sent.contains_key(key)
        }),
{
    let params = requested_params(query, form);
    lemma_requested_lookup(query, form, key);
    options_hold_what_the_parameters_give(params, key);
    filled_field_is_the_setting(query, form, key, DEFAULT_MODEL@);
    filled_field_is_the_setting(query, form, key, DEFAULT_LANGUAGE@);
    filled_field_is_the_setting(query, form, key, DEFAULT_SMART_FORMAT@);
    filled_field_is_the_setting(query, form, key, Seq::empty());
    lemma_parameter_names();
    let names = parameter_names();
    assert(names[0] == "model"@ && names[1] == "language"@ && names[2] == "smart_format"@);
    assert(names[3] == "diarize"@ && names[4] == "punctuate"@ && names[5] == "paragraphs"@);
    assert(names[6] == "utterances"@ && names[7] == "filler_words"@);
    let keys = feature_keys();
    assert(keys[0] == "diarize"@ && keys[1] == "punctuate"@ && keys[2] == "paragraphs"@);
    assert(keys[3] == "utterances"@ && keys[4] == "filler_words"@ && keys.len() == 5);
    if key == "model"@ {
        reveal_strlit("nova-3");
        reveal_strlit("nova-3-general");
        reveal_strlit("nova-2-general");
        reveal_strlit("nova-general");
        reveal_strlit("enhanced-general");
        reveal_strlit("base-general");
        assert("nova-3"@.len() == 6);
        assert("nova-3-general"@.len() == 14 && "nova-2-general"@.len() == 14);
        assert("nova-general"@.len() == 12 && "enhanced-general"@.len() == 16);
        assert("base-general"@.len() == 12);
    }
}

} // verus!
