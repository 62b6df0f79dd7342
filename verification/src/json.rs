use vstd::prelude::*;

use crate::table::{
    entries_map, lemma_entries_kept, lemma_values_are_smaller, NameTable,
};
use crate::text::{option_text, texts_view};

verus! {

/// A JSON document, held as plain values.
#[derive(Debug, PartialEq, Eq)]
pub enum Json {
    /// `null`.
    Null,
    /// `true` or `false`.
    Bool(bool),
    /// A number, carried as it was read.
    Number(serde_json::Number),
    /// A string.
    String(String),
    /// An array.
    Array(Vec<Json>),
    /// An object, as its members by name.
    Object(NameTable<Json>),
}

/// What a [`Json`] document says.
pub enum JsonView {
    Null,
    Bool(bool),
    Number(serde_json::Number),
    String(Seq<char>),
    Array(Seq<JsonView>),
    Object(Map<Seq<char>, JsonView>),
}

/// The documents that `items` say, in order.
pub open spec fn items_view(items: Seq<Json>) -> Seq<JsonView>
    decreases items,
{
    Seq::new(
        items.len(),
        |i: int|
            if 0 <= i < items.len() {
                items[i]@
            } else {
                JsonView::Null
            },
    )
}

/// What the documents in `members` say, by name.
pub open spec fn members_view(members: NameTable<Json>) -> Map<Seq<char>, JsonView>
    decreases members,
{
    proof {
        assert forall|name: Seq<char>| members@.contains_key(name) implies decreases_to!(
            members => #[trigger] members@[name]
        ) by {
            lemma_values_are_smaller(members, name);
        }
    }
    Map::new(
        |name: Seq<char>| members@.contains_key(name),
        |name: Seq<char>|
            if members@.contains_key(name) {
                members@[name]@
            } else {
                JsonView::Null
            },
    )
}

impl View for Json {
    type V = JsonView;

    open spec fn view(&self) -> JsonView
        decreases self,
    {
        match self {
            Json::Null => JsonView::Null,
            Json::Bool(flag) => JsonView::Bool(*flag),
            Json::Number(number) => JsonView::Number(*number),
            Json::String(text) => JsonView::String(text@),
            Json::Array(items) => JsonView::Array(items_view(items@)),
            Json::Object(members) => JsonView::Object(members_view(*members)),
        }
    }
}

/// The member `name` of `document`, when `document` is an object that has it.
pub open spec fn member(document: JsonView, name: Seq<char>) -> Option<JsonView> {
    match document {
        JsonView::Object(members) => if members.contains_key(name) {
            Some(members[name])
        } else {
            None
        },
        _ => None,
    }
}

/// What an optional document says.
pub open spec fn option_view(document: Option<Json>) -> Option<JsonView> {
    match document {
        Some(document) => Some(document@),
        None => None,
    }
}

/// The text of `document`, when it is a string.
pub open spec fn text_of(document: Option<JsonView>) -> Option<Seq<char>> {
    match document {
        Some(JsonView::String(text)) => Some(text),
        _ => None,
    }
}

/// `document`, or `null` for none.
pub open spec fn nullable(document: Option<JsonView>) -> JsonView {
    match document {
        Some(document) => document,
        None => JsonView::Null,
    }
}

/// An array of strings.
pub open spec fn string_array(texts: Seq<Seq<char>>) -> JsonView {
    JsonView::Array(Seq::new(texts.len(), |i: int| JsonView::String(texts[i])))
}

/// A string, or `null` for none.
pub open spec fn nullable_text(text: Option<Seq<char>>) -> JsonView {
    match text {
        Some(text) => JsonView::String(text),
        None => JsonView::Null,
    }
}

impl Json {
    /// The member `name`, when this is an object that has it.
    pub fn get(&self, name: &str) -> (found: Option<&Json>)
        ensures
            match found {
                Some(found) => member(self@, name@) == Some(found@),
                None => member(self@, name@) is None,
            },
    {
        match self {
            Json::Object(members) => members.get(name),
            _ => None,
        }
    }

    /// The text, when this is a string.
    pub fn as_str(&self) -> (text: Option<&str>)
        ensures
            match text {
                Some(text) => self@ == JsonView::String(text@),
                None => !(self@ is String),
            },
    {
        match self {
            Json::String(text) => Some(text.as_str()),
            _ => None,
        }
    }

    /// Whether this is `null`.
    pub fn is_null(&self) -> (null: bool)
        ensures
            null == (self@ is Null),
    {
        match self {
            Json::Null => true,
            _ => false,
        }
    }
}

impl Clone for Json {
    fn clone(&self) -> (copy: Self)
        ensures
            copy@ == self@,
        decreases self,
    {
        match self {
            Json::Null => Json::Null,
            Json::Bool(flag) => Json::Bool(*flag),
            Json::Number(number) => Json::Number(number.clone()),
            Json::String(text) => Json::String(text.clone()),
            Json::Array(items) => {
                let mut copies: Vec<Json> = Vec::new();
                let mut i: usize = 0;
                while i < items.len()
                    invariant
                        i <= items@.len(),
                        *self == Json::Array(*items),
                        copies@.len() == i,
                        forall|j: int| 0 <= j < i ==> copies@[j]@ == items@[j]@,
                    decreases items@.len() - i,
                {
                    assert(decreases_to!(*self => self->Array_0));
                    assert(decreases_to!(self->Array_0 => self->Array_0@));
                    assert(decreases_to!(self->Array_0@ => self->Array_0@[i as int]));
                    copies.push(items[i].clone());
                    i += 1;
                }
                assert(items_view(copies@) =~= items_view(items@));
                Json::Array(copies)
            },
            Json::Object(members) => {
                let entries = members.entries();
                let mut copies: NameTable<Json> = NameTable::new();
                let mut i: usize = 0;
                proof {
                    lemma_entries_kept(entries@);
                    assert(entries@.take(0) =~= Seq::empty());
                }
                while i < entries.len()
                    invariant
                        i <= entries@.len(),
                        *self == Json::Object(*members),
                        entries_map(entries@) == members@,
                        forall|j: int|
                            0 <= j < entries@.len() ==> members@.contains_pair(
                                (#[trigger] entries@[j]).0@,
                                entries@[j].1,
                            ),
                        copies@.dom() == entries_map(entries@.take(i as int)).dom(),
                        forall|name: Seq<char>|
                            copies@.contains_key(name) ==> (#[trigger] copies@[name])@
                                == entries_map(entries@.take(i as int))[name]@,
                    decreases entries@.len() - i,
                {
                    assert(entries@.take(i + 1).drop_last() =~= entries@.take(i as int));
                    proof {
                        lemma_values_are_smaller(*members, entries@[i as int].0@);
                        assert(decreases_to!(*self => self->Object_0));
                    }
                    let copy = entries[i].1.clone();
                    copies = copies.insert(entries[i].0.clone(), copy);
                    i += 1;
                }
                assert(entries@.take(i as int) =~= entries@);
                assert(members_view(copies) =~= members_view(*members));
                Json::Object(copies)
            },
        }
    }
}

/// `members` with `document` as the member `name`.
pub fn put(members: NameTable<Json>, name: &str, document: Json) -> (more: NameTable<Json>)
    ensures
        members_view(more) == members_view(members).insert(name@, document@),
{
    let more = members.insert(name.to_owned(), document);
    assert(members_view(more) =~= members_view(members).insert(name@, document@));
    more
}

/// An object without members.
pub fn no_members() -> (members: NameTable<Json>)
    ensures
        members_view(members) == Map::<Seq<char>, JsonView>::empty(),
{
    let members: NameTable<Json> = NameTable::new();
    assert(members_view(members) =~= Map::empty());
    members
}

/// A copy of `document`, or `null` for none.
pub fn clone_option(document: &Option<Json>) -> (copy: Json)
    ensures
        copy@ == nullable(option_view(*document)),
{
    match document {
        Some(document) => document.clone(),
        None => Json::Null,
    }
}

/// Copies of `items`, in order.
pub fn clone_items(items: &Vec<Json>) -> (copies: Vec<Json>)
    ensures
        items_view(copies@) == items_view(items@),
{
    let mut copies: Vec<Json> = Vec::new();
    let mut i: usize = 0;
    while i < items.len()
        invariant
            i <= items@.len(),
            copies@.len() == i,
            forall|j: int| 0 <= j < i ==> copies@[j]@ == items@[j]@,
        decreases items@.len() - i,
    {
        copies.push(items[i].clone());
        i += 1;
    }
    assert(items_view(copies@) =~= items_view(items@));
    copies
}

/// The strings `texts` as a JSON array.
pub fn text_array(texts: &Vec<String>) -> (document: Json)
    ensures
        document@ == string_array(texts_view(texts@)),
{
    let mut items: Vec<Json> = Vec::new();
    let mut i: usize = 0;
    while i < texts.len()
        invariant
            i <= texts@.len(),
            items@.len() == i,
            forall|j: int| 0 <= j < i ==> items@[j]@ == JsonView::String(texts@[j]@),
        decreases texts@.len() - i,
    {
        items.push(Json::String(texts[i].clone()));
        i += 1;
    }
    assert(items_view(items@) =~= string_array(texts_view(texts@))->Array_0);
    Json::Array(items)
}

/// `text` as a JSON string, or `null` for none.
pub fn text_or_null(text: &Option<String>) -> (document: Json)
    ensures
        document@ == nullable_text(option_text(*text)),
{
    match text {
        Some(text) => Json::String(text.clone()),
        None => Json::Null,
    }
}

} // verus!
