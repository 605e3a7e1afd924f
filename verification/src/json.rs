//! JSON documents.

use crate::string_map::{map_of, StringMap};
use vstd::prelude::*;

verus! {

/// Declares `serde_json::Number`, a JSON number, which is carried and never looked into.
#[verifier::external_type_specification]
#[verifier::external_body]
pub struct ExNumber(serde_json::Number);

/// `serde_json::Number::clone`: the copy is the same number.
pub assume_specification[ <serde_json::Number as Clone>::clone ](
    number: &serde_json::Number,
) -> (copy: serde_json::Number)
    ensures
        copy == *number,
;

/// A JSON document.
#[derive(Debug)]
pub enum Json {
    Null,
    Bool(bool),
    Number(serde_json::Number),
    Text(String),
    Array(Vec<Json>),
    Object(StringMap<Json>),
}

/// What a JSON document says: an object is a map from its keys to its values.
#[verifier::ext_equal]
pub enum JsonView {
    Null,
    Bool(bool),
    Number(serde_json::Number),
    Text(Seq<char>),
    Array(Seq<JsonView>),
    Object(Map<Seq<char>, JsonView>),
}

/// What a document says.
pub open spec fn json_view(document: Json) -> JsonView
    decreases document,
{
    match document {
        Json::Null => JsonView::Null,
        Json::Bool(value) => JsonView::Bool(value),
        Json::Number(number) => JsonView::Number(number),
        Json::Text(text) => JsonView::Text(text@),
        Json::Array(items) => JsonView::Array(items_view(items@)),
        Json::Object(map) => {
            proof {
                map.lemma_entries_are_smaller();
            }
            JsonView::Object(entries_view(map.entry_list()))
        },
    }
}

/// What the items of an array say.
pub open spec fn items_view(items: Seq<Json>) -> Seq<JsonView>
    decreases items,
{
    Seq::new(
        items.len(),
        |i: int|
            if 0 <= i < items.len() {
                json_view(items[i])
            } else {
                JsonView::Null
            },
    )
}

/// What the entries of an object say.
pub open spec fn entries_view(entries: Seq<(String, Json)>) -> Map<Seq<char>, JsonView>
    decreases entries,
{
    if entries.len() == 0 {
        Map::empty()
    } else {
        entries_view(entries.drop_last()).insert(
            entries.last().0@,
            json_view(entries.last().1),
        )
    }
}

impl View for Json {
    type V = JsonView;

    open spec fn view(&self) -> JsonView {
        json_view(*self)
    }
}

/// An object says what its map says, key by key.
pub proof fn lemma_entries_view(entries: Seq<(String, Json)>)
    ensures
        entries_view(entries) == map_of(entries).map_values(|value: Json| json_view(value)),
    decreases entries.len(),
{
    let view = |value: Json| json_view(value);
    if entries.len() > 0 {
        lemma_entries_view(entries.drop_last());
    }
    assert(entries_view(entries) =~= map_of(entries).map_values(view));
}

impl JsonView {
    /// An object without members.
    pub open spec fn object() -> JsonView {
        JsonView::Object(Map::empty())
    }

    /// An object with one member more, in place of the one of the same key.
    pub open spec fn with(self, key: Seq<char>, value: JsonView) -> JsonView {
        JsonView::Object(self->Object_0.insert(key, value))
    }

    /// The member of an object, if the document is an object that has it.
    pub open spec fn member(self, key: Seq<char>) -> Option<JsonView> {
        match self {
            JsonView::Object(map) => if map.contains_key(key) {
                Some(map[key])
            } else {
                None
            },
            _ => None,
        }
    }

    /// The items of an array, if the document is one.
    pub open spec fn items(self) -> Option<Seq<JsonView>> {
        match self {
            JsonView::Array(items) => Some(items),
            _ => None,
        }
    }
}

impl Json {
    /// A JSON string.
    pub fn text(text: &str) -> (document: Json)
        ensures
            document@ == JsonView::Text(text@),
    {
        Json::Text(text.to_string())
    }

    /// An object without members.
    pub fn object() -> (document: Json)
        ensures
            document@ == JsonView::object(),
    {
        let map: StringMap<Json> = StringMap::new();
        proof {
            lemma_entries_view(map.entry_list());
            assert(map@.map_values(|value: Json| json_view(value)) =~= Map::empty());
        }
        Json::Object(map)
    }

    /// Gives an object one member more, in place of the one of the same key.
    pub fn with(self, key: &str, value: Json) -> (document: Json)
        requires
            self@ is Object,
        ensures
            document@ == self@.with(key@, value@),
    {
        match self {
            Json::Object(map) => {
                let mut map: StringMap<Json> = map;
                let ghost before = map;
                map.insert(key.to_string(), value);
                proof {
                    lemma_entries_view(before.entry_list());
                    lemma_entries_view(map.entry_list());
                    assert(map@.map_values(|value: Json| json_view(value)) =~= before@.map_values(
                        |value: Json| json_view(value),
                    ).insert(key@, value@));
                }
                Json::Object(map)
            },
            other => other,
        }
    }

    /// The member of an object, if the document is an object that has it.
    pub fn get(&self, key: &str) -> (value: Option<&Json>)
        ensures
            match value {
                Some(value) => self@.member(key@) == Some(value@),
                None => self@.member(key@) is None,
            },
    {
        match self {
            Json::Object(map) => {
                proof {
                    lemma_entries_view(map.entry_list());
                }
                map.get(key)
            },
            _ => None,
        }
    }

    /// The items of an array, if the document is one.
    pub fn as_array(&self) -> (items: Option<&Vec<Json>>)
        ensures
            match items {
                Some(items) => self@.items() == Some(items_view(items@)),
                None => self@.items() is None,
            },
    {
        match self {
            Json::Array(items) => Some(items),
            _ => None,
        }
    }
}

impl Clone for Json {
    fn clone(&self) -> (copy: Self)
        ensures
            copy@ == self@,
        decreases self,
    {
        match self {
            Json::Null => Json::Null,
            Json::Bool(value) => Json::Bool(*value),
            Json::Number(number) => Json::Number(number.clone()),
            Json::Text(text) => Json::Text(text.clone()),
            Json::Array(items) => {
                let mut copies: Vec<Json> = Vec::new();
                let mut i: usize = 0;
                while i < items.len()
                    invariant
                        decreases_to!(self => items@),
                        copies@.len() == i <= items@.len(),
                        forall|k: int| 0 <= k < i ==> (#[trigger] copies@[k])@ == items@[k]@,
                    decreases items@.len() - i,
                {
                    let item: &Json = &items[i];
                    assert(decreases_to!(items@ => items@[i as int]));
                    copies.push((&*item).clone());
                    i += 1;
                }
                assert(items_view(copies@) =~= items_view(items@));
                Json::Array(copies)
            },
            Json::Object(map) => {
                let mut copies: StringMap<Json> = StringMap::new();
                let entries: &Vec<(String, Json)> = map.entries();
                let mut i: usize = 0;
                proof {
                    map.lemma_entries_are_smaller();
                    lemma_entries_view(copies.entry_list());
                    assert(entries_view(copies.entry_list()) =~= entries_view(entries@.take(0)));
                }
                while i < entries.len()
                    invariant
                        decreases_to!(self => entries@),
                        i <= entries@.len(),
                        entries_view(copies.entry_list()) == entries_view(
                            entries@.take(i as int),
                        ),
                    decreases entries@.len() - i,
                {
                    let entry: &(String, Json) = &entries[i];
                    assert(decreases_to!(entries@ => entries@[i as int]));
                    let value: Json = (&entry.1).clone();
                    let ghost before = copies;
                    copies.insert(entry.0.clone(), value);
                    proof {
                        lemma_entries_view(before.entry_list());
                        lemma_entries_view(copies.entry_list());
                        assert(entries_view(copies.entry_list()) =~= entries_view(
                            before.entry_list(),
                        ).insert(entry.0@, value@));
                        assert(entries@.take(i + 1).drop_last() =~= entries@.take(i as int));
                    }
                    i += 1;
                }
                assert(entries@.take(i as int) =~= entries@);
                Json::Object(copies)
            },
        }
    }
}

/// An empty object has no member. An object with one member more has that member, and any other as
/// before.
pub proof fn added_member_is_found(object: JsonView, key: Seq<char>, value: JsonView)
    requires
        object is Object,
    ensures
        object.with(key, value) is Object,
        object.with(key, value).member(key) == Some(value),
        forall|other: Seq<char>|
            other != key ==> #[trigger] object.with(key, value).member(other) == object.member(
                other,
            ),
        JsonView::object() is Object,
        forall|other: Seq<char>| (#[trigger] JsonView::object().member(other)) is None,
{
}

/// An object has the members of its map, each with its value whatever that is, and no other. No
/// other document has members.
pub proof fn members_are_those_of_the_map(document: JsonView, key: Seq<char>)
    ensures
        document matches JsonView::Object(map) ==> {
            &&& map.contains_key(key) ==> document.member(key) == Some(map[key])
            &&& !map.contains_key(key) ==> document.member(key) is None
        },
        !(document is Object) ==> document.member(key) is None,
{
}

/// An array has its items, all of them and in their order. No other document has items.
pub proof fn items_are_those_of_the_array(document: JsonView, items: Seq<JsonView>)
    ensures
        document.items() == Some(items) <==> document == JsonView::Array(items),
{
}

/// Two objects with the same members are the same.
pub proof fn objects_are_told_apart_by_members(a: JsonView, b: JsonView)
    requires
        a is Object,
        b is Object,
        forall|key: Seq<char>| #[trigger] a.member(key) == b.member(key),
    ensures
        a == b,
{
    let left = a->Object_0;
    let right = b->Object_0;
    assert forall|key: Seq<char>| #[trigger] left.dom().contains(key) == right.dom().contains(
        key,
    ) by {
        assert(a.member(key) == b.member(key));
        assert(left.contains_key(key) == right.contains_key(key));
    }
    assert(left.dom() =~= right.dom());
    assert forall|key: Seq<char>| left.dom().contains(key) implies #[trigger] left[key]
        == right[key] by {
        assert(a.member(key) == b.member(key));
        assert(left.contains_key(key) && right.contains_key(key));
    }
    assert(left =~= right);
}

/// What a document says is all that it holds: a text its characters, a number itself, an array each
/// of its items in its place.
pub proof fn document_says_what_it_holds(document: Json)
    ensures
        document is Null ==> document@ is Null,
        document matches Json::Bool(value) ==> document@ == JsonView::Bool(value),
        document matches Json::Number(number) ==> document@ == JsonView::Number(number),
        document matches Json::Text(text) ==> document@ == JsonView::Text(text@),
        document matches Json::Array(items) ==> {
            &&& document@ matches JsonView::Array(views) && views.len() == items@.len()
                && forall|i: int| 0 <= i < items@.len() ==> #[trigger] views[i] == items@[i]@
        },
{
}

/// What an object says is what its map holds, key by key.
pub proof fn object_says_what_its_map_holds(map: StringMap<Json>, key: Seq<char>)
    ensures
        map@.contains_key(key) ==> Json::Object(map)@.member(key) == Some(map@[key]@),
        !map@.contains_key(key) ==> Json::Object(map)@.member(key) is None,
{
    lemma_entries_view(map.entry_list());
}

} // verus!
