use vstd::prelude::*;

use crate::json::{
    clone_items, clone_option, no_members, put, text_array, text_or_null, Json, JsonView,
};
use crate::table::NameTable;
use crate::value::{empty_object_bytes, null_bytes, read_json, value_view, written_bytes};

verus! {

/// What a document says is what it holds, member by member and item by item.
pub proof fn law_a_document_says_what_it_holds(document: Json)
    ensures
        match document {
            Json::Null => document@ == JsonView::Null,
            Json::Bool(flag) => document@ == JsonView::Bool(flag),
            Json::Number(number) => document@ == JsonView::Number(number),
            Json::String(text) => document@ == JsonView::String(text@),
            Json::Array(items) => document@ matches JsonView::Array(said) && said.len()
                == items@.len() && forall|i: int|
                0 <= i < said.len() ==> said[i] == (#[trigger] items@[i])@,
            Json::Object(members) => document@ matches JsonView::Object(said) && forall|
                name: Seq<char>,
            | #[trigger]
                said.contains_key(name) == members@.contains_key(name) && (said.contains_key(name)
                    ==> said[name] == members@[name]@),
        },
{
}

/// A member that is found is the one the object has under that name; nothing is found elsewhere.
pub proof fn law_a_member_is_found_under_its_name(
    document: Json,
    name: &str,
    found: Option<&Json>,
)
    requires
        call_ensures(Json::get, (&document, name), found),
    ensures
        found matches Some(member) ==> (document matches Json::Object(members)
            && members@.contains_key(name@) && members@[name@]@ == member@),
        document matches Json::Object(members) ==> (members@.contains_key(name@) ==> found is Some),
{
}

/// Texts and nulls are told from everything else.
pub proof fn law_texts_and_nulls_are_told(document: Json, text: Option<&str>, null: bool)
    requires
        call_ensures(Json::as_str, (&document,), text),
        call_ensures(Json::is_null, (&document,), null),
    ensures
        null <==> document is Null,
        text is Some <==> document is String,
        document matches Json::String(held) ==> text->0@ == held@,
{
}

/// A copy says what was copied.
pub proof fn law_a_copy_says_the_same(
    document: Json,
    copy: Json,
    items: Vec<Json>,
    copies: Vec<Json>,
    optional: Option<Json>,
    nullable: Json,
)
    requires
        call_ensures(<Json as Clone>::clone, (&document,), copy),
        call_ensures(clone_items, (&items,), copies),
        call_ensures(clone_option, (&optional,), nullable),
    ensures
        copy@ == document@,
        copies@.len() == items@.len(),
        forall|i: int| 0 <= i < copies@.len() ==> (#[trigger] copies@[i])@ == items@[i]@,
        optional is None ==> nullable@ == JsonView::Null,
        optional is Some ==> nullable@ == optional->0@,
{
    let left = crate::json::items_view(copies@);
    let right = crate::json::items_view(items@);
    assert(left.len() == right.len());
    assert forall|i: int| 0 <= i < copies@.len() implies (#[trigger] copies@[i])@ == items@[i]@ by {
        assert(left[i] == right[i]);
    }
}

/// An object gives back each member that it was given.
pub proof fn law_an_object_has_what_was_put(
    members: NameTable<Json>,
    name: &str,
    document: Json,
    more: NameTable<Json>,
    none: NameTable<Json>,
    asked: Seq<char>,
)
    requires
        call_ensures(put, (members, name, document), more),
        call_ensures(no_members, (), none),
    ensures
        Json::Object(none)@ == JsonView::Object(Map::empty()),
        Json::Object(more)@ matches JsonView::Object(said) && said.contains_key(name@)
            && said[name@] == document@,
        asked != name@ ==> (Json::Object(more)@->Object_0.contains_key(asked) <==> Json::Object(
            members,
        )@->Object_0.contains_key(asked)),
        asked != name@ && Json::Object(members)@->Object_0.contains_key(asked) ==> Json::Object(
            more,
        )@->Object_0[asked] == Json::Object(members)@->Object_0[asked],
{
}

/// Texts become strings one for one, and an absent text `null`.
pub proof fn law_texts_become_strings(
    texts: Vec<String>,
    array: Json,
    text: Option<String>,
    document: Json,
)
    requires
        call_ensures(text_array, (&texts,), array),
        call_ensures(text_or_null, (&text,), document),
    ensures
        array@ matches JsonView::Array(items) && items.len() == texts@.len() && forall|i: int|
            0 <= i < items.len() ==> items[i] == JsonView::String((#[trigger] texts@[i])@),
        text is None ==> document@ == JsonView::Null,
        text is Some ==> document@ == JsonView::String(text->0@),
{
}

/// A document and the value it becomes say the same, both ways.
pub proof fn law_values_and_documents_say_the_same(
    value: serde_json::Value,
    document: Json,
    back: serde_json::Value,
)
    requires
        call_ensures(Json::from_value, (value,), document),
        call_ensures(Json::into_value, (document,), back),
    ensures
        document@ == value_view(value),
        value_view(back) == value_view(value),
{
}

/// Reading gives what the bytes say, or the reader's own failure.
pub proof fn law_reading_gives_what_the_bytes_say(
    bytes: &[u8],
    read: Result<Json, serde_json::Error>,
)
    requires
        call_ensures(Json::from_slice, (bytes,), read),
    ensures
        read is Ok <==> read_json(bytes@) is Ok,
        read is Ok ==> read->Ok_0@ == read_json(bytes@)->Ok_0,
        read is Err ==> read->Err_0 == read_json(bytes@)->Err_0,
{
}

/// Writing always succeeds, and as text it gives the same bytes.
pub proof fn law_text_and_bytes_are_one(
    document: Json,
    bytes: Result<Vec<u8>, serde_json::Error>,
    text: Result<String, serde_json::Error>,
)
    requires
        call_ensures(Json::to_vec, (document,), bytes),
        call_ensures(Json::to_text, (document,), text),
    ensures
        bytes is Ok,
        text is Ok,
        bytes->Ok_0@ == written_bytes(document@),
        vstd::utf8::encode_utf8(text->Ok_0@) == bytes->Ok_0@,
        document is Null ==> bytes->Ok_0@ == null_bytes(),
        document@ == JsonView::Object(Map::empty()) ==> bytes->Ok_0@ == empty_object_bytes(),
{
}

/// The fixed answers are the four bytes of `null` and the two of `{}`.
pub proof fn law_fixed_answers()
    ensures
        null_bytes().len() == 4,
        null_bytes()[0] == 'n' as u8 && null_bytes()[1] == 'u' as u8,
        null_bytes()[2] == 'l' as u8 && null_bytes()[3] == 'l' as u8,
        empty_object_bytes().len() == 2,
        empty_object_bytes()[0] == '{' as u8 && empty_object_bytes()[1] == '}' as u8,
{
}

} // verus!
