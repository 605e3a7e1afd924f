//! The parameters of a transcription, chosen from the query string and the form.

use vstd::hash_map::StringHashMap;
use vstd::prelude::*;

verus! {

/// The transcription model when none is asked for.
pub const DEFAULT_MODEL: &'static str = "nova-3";

/// The language when none is asked for.
pub const DEFAULT_LANGUAGE: &'static str = "en";

/// Whether the text is formatted when nothing is said about it.
pub const DEFAULT_SMART_FORMAT: &'static str = "true";

/// Named texts: a query string or the text fields of a form.
pub type Fields = StringHashMap<String>;

/// The first text that is not empty, else the default.
pub open spec fn first_filled(texts: Seq<Seq<char>>, default: Seq<char>) -> Seq<char>
    decreases texts.len(),
{
    if texts.len() == 0 {
        default
    } else if texts[0].len() > 0 {
        texts[0]
    } else {
        first_filled(texts.drop_first(), default)
    }
}

/// Texts, by their characters.
pub open spec fn texts_view(texts: Seq<&str>) -> Seq<Seq<char>> {
    texts.map_values(|text: &str| text@)
}

/// Returns the first text that is not empty, else the default.
pub fn first_non_empty(vals: &[&str], default: &str) -> (chosen: String)
    ensures
        chosen@ == first_filled(texts_view(vals@), default@),
{
    let ghost texts = texts_view(vals@);
    let mut i: usize = 0;
    assert(texts.skip(0) =~= texts);
    while i < vals.len()
        invariant
            texts == texts_view(vals@),
            i <= vals@.len(),
            first_filled(texts, default@) == first_filled(texts.skip(i as int), default@),
        decreases vals@.len() - i,
    {
        assert(texts.skip(i as int)[0] == vals@[i as int]@);
        if !vals[i].is_empty() {
            return vals[i].to_string();
        }
        assert(texts.skip(i as int).drop_first() =~= texts.skip(i + 1));
        i += 1;
    }
    default.to_string()
}

/// The text of a field; empty where there is no such field.
pub open spec fn field_text(fields: Map<Seq<char>, String>, key: Seq<char>) -> Seq<char> {
    if fields.contains_key(key) {
        fields[key]@
    } else {
        Seq::empty()
    }
}

/// The text of a field; empty where there is no such field.
fn text_of<'a>(fields: &'a Fields, key: &str) -> (text: &'a str)
    ensures
        text@ == field_text(fields@, key@),
{
    match fields.get(key) {
        Some(text) => text.as_str(),
        None => {
            proof {
                reveal_strlit("");
            }
            ""
        },
    }
}

/// What a parameter is set to: the query string comes first, then the form, then the default.
pub open spec fn setting(
    query: Map<Seq<char>, String>,
    form: Map<Seq<char>, String>,
    key: Seq<char>,
    default: Seq<char>,
) -> Seq<char> {
    first_filled(seq![field_text(query, key), field_text(form, key)], default)
}

/// Chooses what a parameter is set to.
fn choose_setting(query: &Fields, form: &Fields, key: &str, default: &str) -> (chosen: String)
    ensures
        chosen@ == setting(query@, form@, key@, default@),
{
    let candidates: [&str; 2] = [text_of(query, key), text_of(form, key)];
    assert(texts_view(candidates@) =~= seq![field_text(query@, key@), field_text(form@, key@)]);
    first_non_empty(&candidates, default)
}

/// The features that are switched on or off only when the request says so.
pub open spec fn feature_keys() -> Seq<Seq<char>> {
    seq!["diarize"@, "punctuate"@, "paragraphs"@, "utterances"@, "filler_words"@]
}

/// The names of all the parameters of a transcription.
pub open spec fn parameter_names() -> Seq<Seq<char>> {
    seq!["model"@, "language"@, "smart_format"@] + feature_keys()
}

/// A list of named texts, by their characters.
pub open spec fn params_view(params: Seq<(String, String)>) -> Seq<(Seq<char>, Seq<char>)> {
    params.map_values(|param: (String, String)| (param.0@, param.1@))
}

/// The features that the request speaks of, among the given ones and in their order.
pub open spec fn feature_params(
    query: Map<Seq<char>, String>,
    form: Map<Seq<char>, String>,
    keys: Seq<Seq<char>>,
) -> Seq<(Seq<char>, Seq<char>)>
    decreases keys.len(),
{
    if keys.len() == 0 {
        Seq::empty()
    } else {
        let before = feature_params(query, form, keys.drop_last());
        let value = setting(query, form, keys.last(), Seq::empty());
        if value.len() > 0 {
            before.push((keys.last(), value))
        } else {
            before
        }
    }
}

/// The model that a request asks for.
pub open spec fn requested_model(
    query: Map<Seq<char>, String>,
    form: Map<Seq<char>, String>,
) -> Seq<char> {
    setting(query, form, "model"@, DEFAULT_MODEL@)
}

/// The parameters of a transcription: model, language and formatting always, each feature where
/// the request speaks of it.
pub open spec fn requested_params(
    query: Map<Seq<char>, String>,
    form: Map<Seq<char>, String>,
) -> Seq<(Seq<char>, Seq<char>)> {
    seq![
        ("model"@, requested_model(query, form)),
        ("language"@, setting(query, form, "language"@, DEFAULT_LANGUAGE@)),
        ("smart_format"@, setting(query, form, "smart_format"@, DEFAULT_SMART_FORMAT@)),
    ] + feature_params(query, form, feature_keys())
}

/// Chooses the model of a transcription.
pub fn transcription_model(query: &Fields, form: &Fields) -> (model: String)
    ensures
        model@ == requested_model(query@, form@),
{
    choose_setting(query, form, "model", DEFAULT_MODEL)
}

/// Chooses the parameters of a transcription.
pub fn transcription_params(query: &Fields, form: &Fields) -> (params: Vec<(String, String)>)
    ensures
        params_view(params@) == requested_params(query@, form@),
{
    let mut params: Vec<(String, String)> = Vec::new();
    params.push(("model".to_string(), transcription_model(query, form)));
    params.push(
        ("language".to_string(), choose_setting(query, form, "language", DEFAULT_LANGUAGE)),
    );
    params.push(
        (
            "smart_format".to_string(),
            choose_setting(query, form, "smart_format", DEFAULT_SMART_FORMAT),
        ),
    );
    let ghost base = params_view(params@);
    let keys: [&str; 5] = ["diarize", "punctuate", "paragraphs", "utterances", "filler_words"];
    let ghost names = feature_keys();
    assert(names.take(0) =~= Seq::empty());
    assert(params_view(params@) =~= base + feature_params(query@, form@, names.take(0)));
    let mut i: usize = 0;
    while i < 5
        invariant
            i <= 5,
            names == feature_keys(),
            forall|k: int| 0 <= k < 5 ==> (#[trigger] keys@[k])@ == names[k],
            params_view(params@) == base + feature_params(query@, form@, names.take(i as int)),
        decreases 5 - i,
    {
        let key: &str = keys[i];
        proof {
            reveal_strlit("");
            assert(names.take(i + 1).drop_last() =~= names.take(i as int));
            assert(names.take(i + 1).last() == key@);
            assert(""@ =~= Seq::empty());
        }
        let value: String = choose_setting(query, form, key, "");
        if !value.as_str().is_empty() {
            let ghost before = params@;
            params.push((key.to_string(), value));
            proof {
                assert(params_view(params@) =~= params_view(before).push((key@, value@)));
                assert(params_view(params@) =~= base + feature_params(
                    query@,
                    form@,
                    names.take(i + 1),
                ));
            }
        }
        i += 1;
    }
    assert(names.take(5) =~= names);
    assert(params_view(params@) =~= requested_params(query@, form@));
    params
}

/// The query string goes before the form, and the form before the default.
pub proof fn query_goes_before_form(
    query: Map<Seq<char>, String>,
    form: Map<Seq<char>, String>,
    key: Seq<char>,
    default: Seq<char>,
)
    ensures
        field_text(query, key).len() > 0 ==> setting(query, form, key, default) == field_text(
            query,
            key,
        ),
        field_text(query, key).len() == 0 && field_text(form, key).len() > 0 ==> setting(
            query,
            form,
            key,
            default,
        ) == field_text(form, key),
        field_text(query, key).len() == 0 && field_text(form, key).len() == 0 ==> setting(
            query,
            form,
            key,
            default,
        ) == default,
{
    let texts = seq![field_text(query, key), field_text(form, key)];
    assert(texts.drop_first() =~= seq![field_text(form, key)]);
    assert(texts.drop_first().drop_first() =~= Seq::<Seq<char>>::empty());
    reveal_with_fuel(first_filled, 3);
}

/// What a parameter with a default is set to is never empty.
pub proof fn settings_are_filled(
    query: Map<Seq<char>, String>,
    form: Map<Seq<char>, String>,
    key: Seq<char>,
    default: Seq<char>,
)
    requires
        default.len() > 0,
    ensures
        setting(query, form, key, default).len() > 0,
{
    query_goes_before_form(query, form, key, default);
}

/// The names of the parameters differ from each other and from `url`.
pub proof fn lemma_parameter_names()
    ensures
        forall|i: int, j: int|
            0 <= i < j < parameter_names().len() ==> parameter_names()[i] != parameter_names()[j],
        forall|i: int| 0 <= i < parameter_names().len() ==> parameter_names()[i] != "url"@,
{
    reveal_strlit("url");
    reveal_strlit("model");
    reveal_strlit("language");
    reveal_strlit("smart_format");
    reveal_strlit("diarize");
    reveal_strlit("punctuate");
    reveal_strlit("paragraphs");
    reveal_strlit("utterances");
    reveal_strlit("filler_words");
    let names = parameter_names();
    assert(names.len() == 8);
    assert(names[0].len() == 5 && names[1].len() == 8);
    assert(names[2].len() == 12 && names[2][0] == 's');
    assert(names[3].len() == 7 && names[4].len() == 9);
    assert(names[5].len() == 10 && names[5][0] == 'p');
    assert(names[6].len() == 10 && names[6][0] == 'u');
    assert(names[7].len() == 12 && names[7][0] == 'f');
}

/// Two sets of fields say the same of every parameter.
pub open spec fn same_settings(
    fields: Map<Seq<char>, String>,
    others: Map<Seq<char>, String>,
) -> bool {
    forall|i: int|
        0 <= i < parameter_names().len() ==> field_text(fields, #[trigger] parameter_names()[i])
            == field_text(others, parameter_names()[i])
}

/// Where the fields say the same of given features, the features are the same.
proof fn lemma_same_features(
    query: Map<Seq<char>, String>,
    form: Map<Seq<char>, String>,
    other_query: Map<Seq<char>, String>,
    other_form: Map<Seq<char>, String>,
    keys: Seq<Seq<char>>,
)
    requires
        forall|i: int|
            0 <= i < keys.len() ==> field_text(query, #[trigger] keys[i]) == field_text(
                other_query,
                keys[i],
            ) && field_text(form, keys[i]) == field_text(other_form, keys[i]),
    ensures
        feature_params(query, form, keys) == feature_params(other_query, other_form, keys),
    decreases keys.len(),
{
    if keys.len() > 0 {
        let rest = keys.drop_last();
        assert forall|i: int| 0 <= i < rest.len() implies field_text(query, #[trigger] rest[i])
            == field_text(other_query, rest[i]) && field_text(form, rest[i]) == field_text(
            other_form,
            rest[i],
        ) by {
            assert(rest[i] == keys[i]);
        }
        lemma_same_features(query, form, other_query, other_form, rest);
        assert(keys.last() == keys[keys.len() - 1]);
    }
}

/// The parameters depend on nothing but what the query string and the form say of them: an unknown
/// field has no part in them, and an empty field is as good as none.
pub proof fn parameters_depend_on_their_fields_alone(
    query: Map<Seq<char>, String>,
    form: Map<Seq<char>, String>,
    other_query: Map<Seq<char>, String>,
    other_form: Map<Seq<char>, String>,
)
    requires
        same_settings(query, other_query),
        same_settings(form, other_form),
    ensures
        requested_model(query, form) == requested_model(other_query, other_form),
        requested_params(query, form) == requested_params(other_query, other_form),
{
    let names = parameter_names();
    assert(names[0] == "model"@ && names[1] == "language"@ && names[2] == "smart_format"@);
    assert forall|i: int| 0 <= i < feature_keys().len() implies field_text(
        query,
        #[trigger] feature_keys()[i],
    ) == field_text(other_query, feature_keys()[i]) && field_text(form, feature_keys()[i])
        == field_text(other_form, feature_keys()[i]) by {
        assert(names[i + 3] == feature_keys()[i]);
    }
    lemma_same_features(query, form, other_query, other_form, feature_keys());
}

/// The URL field has no part in the parameters: they are the same with and without it.
pub proof fn url_is_no_parameter(
    query: Map<Seq<char>, String>,
    form: Map<Seq<char>, String>,
)
    ensures
        requested_model(query, form.remove("url"@)) == requested_model(query, form),
        requested_params(query, form.remove("url"@)) == requested_params(query, form),
{
    lemma_parameter_names();
    parameters_depend_on_their_fields_alone(query, form.remove("url"@), query, form);
}

/// What is read in a field is the text of the field, all of it; a field that is not there reads as
/// empty.
pub proof fn field_is_read_as_it_is(fields: Map<Seq<char>, String>, key: Seq<char>)
    ensures
        fields.contains_key(key) ==> field_text(fields, key) == fields[key]@,
        !fields.contains_key(key) ==> field_text(fields, key).len() == 0,
{
}

/// The first text that is not empty is chosen as it is, and the default where all are empty.
pub proof fn first_text_that_is_not_empty_is_chosen(
    texts: Seq<Seq<char>>,
    i: int,
    default: Seq<char>,
)
    requires
        0 <= i <= texts.len(),
        forall|j: int| 0 <= j < i ==> (#[trigger] texts[j]).len() == 0,
        i < texts.len() ==> texts[i].len() > 0,
    ensures
        first_filled(texts, default) == (if i < texts.len() {
            texts[i]
        } else {
            default
        }),
    decreases texts.len(),
{
    if texts.len() > 0 && i > 0 {
        let rest = texts.drop_first();
        assert(texts[0].len() == 0);
        assert forall|j: int| 0 <= j < i - 1 implies (#[trigger] rest[j]).len() == 0 by {
            assert(rest[j] == texts[j + 1]);
        }
        first_text_that_is_not_empty_is_chosen(rest, i - 1, default);
    }
}

/// A parameter that the query string fills is set to that very text; one that only the form fills,
/// to the form's; one that neither fills, to the default.
pub proof fn filled_field_is_the_setting(
    query: Map<Seq<char>, String>,
    form: Map<Seq<char>, String>,
    key: Seq<char>,
    default: Seq<char>,
)
    ensures
        ({
            let in_query = query.contains_key(key) && query[key]@.len() > 0;
            let in_form = form.contains_key(key) && form[key]@.len() > 0;
            &&& in_query ==> setting(query, form, key, default) == query[key]@
            &&& !in_query && in_form ==> setting(query, form, key, default) == form[key]@
            &&& !in_query && !in_form ==> setting(query, form, key, default) == default
        }),
{
    query_goes_before_form(query, form, key, default);
}

/// A text is among the features exactly where its name is one of the given ones, and the request
/// sets it to that text, which is not empty.
proof fn lemma_feature_is_a_setting(
    query: Map<Seq<char>, String>,
    form: Map<Seq<char>, String>,
    keys: Seq<Seq<char>>,
    key: Seq<char>,
    value: Seq<char>,
)
    ensures
        feature_params(query, form, keys).contains((key, value)) <==> keys.contains(key) && value
            == setting(query, form, key, Seq::empty()) && value.len() > 0,
    decreases keys.len(),
{
    let params = feature_params(query, form, keys);
    if keys.len() > 0 {
        let rest = keys.drop_last();
        let before = feature_params(query, form, rest);
        let last = keys.last();
        let last_value = setting(query, form, last, Seq::empty());
        lemma_feature_is_a_setting(query, form, rest, key, value);
        if keys.contains(key) && key != last {
            let i = choose|i: int| 0 <= i < keys.len() && keys[i] == key;
            assert(rest[i] == key);
        }
        if rest.contains(key) {
            let i = choose|i: int| 0 <= i < rest.len() && rest[i] == key;
            assert(keys[i] == key);
        }
        assert(keys[keys.len() - 1] == last);
        if last_value.len() > 0 {
            assert(params[params.len() - 1] == (last, last_value));
            if before.contains((key, value)) {
                let i = choose|i: int| 0 <= i < before.len() && before[i] == (key, value);
                assert(params[i] == (key, value));
            }
            if params.contains((key, value)) {
                let i = choose|i: int| 0 <= i < params.len() && params[i] == (key, value);
                if i < before.len() {
                    assert(before[i] == (key, value));
                }
            }
        }
    }
}

/// The parameters are the model, the language and the formatting, each with what the request sets it
/// to or its default, and the features that the request fills, each with what it is set to; and
/// nothing else.
pub proof fn parameters_are_the_settings(
    query: Map<Seq<char>, String>,
    form: Map<Seq<char>, String>,
    key: Seq<char>,
    value: Seq<char>,
)
    ensures
        requested_params(query, form).contains((key, value)) <==> {
            ||| key == "model"@ && value == setting(query, form, key, "nova-3"@)
            ||| key == "language"@ && value == setting(query, form, key, "en"@)
            ||| key == "smart_format"@ && value == setting(query, form, key, "true"@)
            ||| (key == "diarize"@ || key == "punctuate"@ || key == "paragraphs"@ || key
                == "utterances"@ || key == "filler_words"@) && value.len() > 0 && value == setting(
                query,
                form,
                key,
                Seq::empty(),
            )
        },
        requested_model(query, form) == setting(query, form, "model"@, "nova-3"@),
{
    let params = requested_params(query, form);
    let features = feature_params(query, form, feature_keys());
    lemma_feature_is_a_setting(query, form, feature_keys(), key, value);
    let keys = feature_keys();
    assert(keys[0] == "diarize"@ && keys[1] == "punctuate"@ && keys[2] == "paragraphs"@);
    assert(keys[3] == "utterances"@ && keys[4] == "filler_words"@ && keys.len() == 5);
    assert(params[0] == ("model"@, setting(query, form, "model"@, "nova-3"@)));
    assert(params[1] == ("language"@, setting(query, form, "language"@, "en"@)));
    assert(params[2] == ("smart_format"@, setting(query, form, "smart_format"@, "true"@)));
    if features.contains((key, value)) {
        let i = choose|i: int| 0 <= i < features.len() && features[i] == (key, value);
        assert(params[i + 3] == (key, value));
    }
    if params.contains((key, value)) {
        let i = choose|i: int| 0 <= i < params.len() && params[i] == (key, value);
        if i >= 3 {
            assert(features[i - 3] == (key, value));
        }
    }
}

/// A list of named texts is seen with every name and every text, in their order.
pub proof fn parameter_list_is_seen_whole(params: Seq<(String, String)>)
    ensures
        params_view(params).len() == params.len(),
        forall|i: int|
            0 <= i < params.len() ==> #[trigger] params_view(params)[i] == (
                params[i].0@,
                params[i].1@,
            ),
{
}

} // verus!
