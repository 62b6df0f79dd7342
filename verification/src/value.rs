use vstd::prelude::*;

use crate::json::{items_view, members_view, no_members, put, Json, JsonView};
use crate::table::{
    entries_map, lemma_ascending_distinct, lemma_entries_kept, lemma_values_are_smaller,
    NameTable,
};

verus! {

/// `serde_json::Value`, opaque here: [`value_view`] names what one says.
#[verifier::external_type_specification]
#[verifier::external_body]
pub struct ExValue(serde_json::Value);

/// `serde_json::Number`, carried as it was read.
#[verifier::external_type_specification]
#[verifier::external_body]
pub struct ExNumber(serde_json::Number);

/// `serde_json::Error`, a failure to read or to write JSON.
#[verifier::external_type_specification]
#[verifier::external_body]
pub struct ExJsonError(serde_json::Error);

/// `serde_json::Number::clone` gives back the same number.
pub assume_specification[ <serde_json::Number as Clone>::clone ](
    number: &serde_json::Number,
) -> (copy: serde_json::Number)
    ensures
        copy == *number,
;

/// `serde_json::Number::as_u64` tells an integer that fits in 64 bits, and nothing of another
/// number. Its result is a function of the number alone, which [`whole_number`] names.
pub assume_specification[ serde_json::Number::as_u64 ](
    number: &serde_json::Number,
) -> (whole: Option<u64>)
    ensures
        whole == whole_number(*number),
;

/// The number as an unsigned integer of 64 bits, where it is one.
pub uninterp spec fn whole_number(number: serde_json::Number) -> Option<u64>;

/// What a `serde_json::Value` says.
pub uninterp spec fn value_view(value: serde_json::Value) -> JsonView;

/// What reading `bytes` as one JSON document gives: the document, or the failure.
pub uninterp spec fn read_json(bytes: Seq<u8>) -> Result<JsonView, serde_json::Error>;

/// The bytes that writing `document` gives.
pub uninterp spec fn written_bytes(document: JsonView) -> Seq<u8>;

/// `null`, in ASCII.
pub open spec fn null_bytes() -> Seq<u8> {
    seq![110u8, 117u8, 108u8, 108u8]
}

/// `{}`, in ASCII.
pub open spec fn empty_object_bytes() -> Seq<u8> {
    seq![123u8, 125u8]
}

/// One level of a `serde_json::Value`: its items and members stay values.
pub enum ValueLevel {
    Null,
    Bool(bool),
    Number(serde_json::Number),
    String(String),
    Array(Vec<serde_json::Value>),
    Object(Vec<(String, serde_json::Value)>),
}

/// What the values `members` give an object, by name.
pub open spec fn value_members(members: Seq<(String, serde_json::Value)>) -> Map<
    Seq<char>,
    JsonView,
>
    decreases members.len(),
{
    if members.len() == 0 {
        Map::empty()
    } else {
        value_members(members.drop_last()).insert(
            members.last().0@,
            value_view(members.last().1),
        )
    }
}

/// Whether no two of `members` have one name.
pub open spec fn distinct_names(members: Seq<(String, serde_json::Value)>) -> bool {
    forall|i: int, j: int| 0 <= i < j < members.len() ==> members[i].0@ != members[j].0@
}

/// Members with distinct names each keep their place in the object.
proof fn lemma_distinct_members_kept(members: Seq<(String, serde_json::Value)>, i: int)
    requires
        distinct_names(members),
        0 <= i < members.len(),
    ensures
        value_members(members).contains_pair(members[i].0@, value_view(members[i].1)),
        value_members(members).dom().finite(),
    decreases members.len(),
{
    if members.len() > 1 {
        let rest = members.drop_last();
        if i < rest.len() {
            lemma_distinct_members_kept(rest, i);
            assert(rest[i] == members[i]);
        } else {
            lemma_distinct_members_kept(rest, 0);
        }
    } else {
        assert(value_members(members.drop_last()) =~= Map::empty());
    }
}

/// Values that say what the entries of `members` say give the object that `members` give.
proof fn lemma_values_of_members(
    values: Seq<(String, serde_json::Value)>,
    entries: Seq<(String, Json)>,
    members: NameTable<Json>,
)
    requires
        entries_map(entries) == members@,
        values.len() == entries.len(),
        forall|i: int|
            0 <= i < values.len() ==> (#[trigger] values[i]).0 == entries[i].0 && value_view(
                values[i].1,
            ) == entries[i].1@,
    ensures
        value_members(values) == members_view(members),
{
    lemma_values_of_entries(values, entries);
    assert(value_members(values) =~= members_view(members));
}

proof fn lemma_values_of_entries(
    values: Seq<(String, serde_json::Value)>,
    entries: Seq<(String, Json)>,
)
    requires
        values.len() == entries.len(),
        forall|i: int|
            0 <= i < values.len() ==> (#[trigger] values[i]).0 == entries[i].0 && value_view(
                values[i].1,
            ) == entries[i].1@,
    ensures
        value_members(values).dom() == entries_map(entries).dom(),
        forall|name: Seq<char>|
            value_members(values).contains_key(name) ==> #[trigger] value_members(values)[name]
                == entries_map(entries)[name]@,
    decreases values.len(),
{
    if values.len() > 0 {
        let fewer = values.drop_last();
        let rest = entries.drop_last();
        assert forall|i: int| 0 <= i < fewer.len() implies (#[trigger] fewer[i]).0 == rest[i].0
            && value_view(fewer[i].1) == rest[i].1@ by {
            assert(values[i].0 == entries[i].0);
        }
        lemma_values_of_entries(fewer, rest);
        assert(values.last() == values[values.len() - 1]);
        assert(value_members(values).dom() =~= entries_map(entries).dom());
    } else {
        assert(value_members(values).dom() =~= entries_map(entries).dom());
    }
}

impl View for ValueLevel {
    type V = JsonView;

    open spec fn view(&self) -> JsonView {
        match self {
            ValueLevel::Null => JsonView::Null,
            ValueLevel::Bool(flag) => JsonView::Bool(*flag),
            ValueLevel::Number(number) => JsonView::Number(*number),
            ValueLevel::String(text) => JsonView::String(text@),
            ValueLevel::Array(items) => JsonView::Array(
                Seq::new(items@.len(), |i: int| value_view(items@[i])),
            ),
            ValueLevel::Object(members) => JsonView::Object(value_members(members@)),
        }
    }
}

/// Takes a `serde_json::Value` apart by its variant. The level says what the value says: the same
/// scalar, the same items in order, or the same members by name. No two members of a
/// `serde_json::Map` have one name.
#[verifier::external_body]
fn open_value(value: serde_json::Value) -> (level: ValueLevel)
    ensures
        level@ == value_view(value),
        level matches ValueLevel::Object(members) ==> distinct_names(members@),
{
    match value {
        serde_json::Value::Null => ValueLevel::Null,
        serde_json::Value::Bool(flag) => ValueLevel::Bool(flag),
        serde_json::Value::Number(number) => ValueLevel::Number(number),
        serde_json::Value::String(text) => ValueLevel::String(text),
        serde_json::Value::Array(items) => ValueLevel::Array(items),
        serde_json::Value::Object(members) => ValueLevel::Object(members.into_iter().collect()),
    }
}

/// Builds the `serde_json::Value` of the variant that `level` has. The value says what the level
/// says: a `serde_json::Map` collected from members with distinct names has each under its name.
#[verifier::external_body]
fn close_value(level: ValueLevel) -> (value: serde_json::Value)
    requires
        level matches ValueLevel::Object(members) ==> distinct_names(members@),
    ensures
        value_view(value) == level@,
{
    match level {
        ValueLevel::Null => serde_json::Value::Null,
        ValueLevel::Bool(flag) => serde_json::Value::Bool(flag),
        ValueLevel::Number(number) => serde_json::Value::Number(number),
        ValueLevel::String(text) => serde_json::Value::String(text),
        ValueLevel::Array(items) => serde_json::Value::Array(items),
        ValueLevel::Object(members) => serde_json::Value::Object(members.into_iter().collect()),
    }
}

/// `serde_json::from_slice` at `serde_json::Value`. Its result is a function of the bytes alone,
/// which [`read_json`] names.
#[verifier::external_body]
fn read_value(bytes: &[u8]) -> (read: Result<serde_json::Value, serde_json::Error>)
    ensures
        match read {
            Ok(value) => read_json(bytes@) == Ok::<JsonView, serde_json::Error>(value_view(value)),
            Err(error) => read_json(bytes@) == Err::<JsonView, serde_json::Error>(error),
        },
{
    serde_json::from_slice(bytes)
}

/// `serde_json::to_vec` at `serde_json::Value`. A value has string keys only and is written to
/// memory, so this succeeds. The bytes are a function of what the value says, which
/// [`written_bytes`] names: members are written in the order of their names. `null` is written
/// `null`, and an object without members `{}`.
#[verifier::external_body]
fn write_bytes(value: &serde_json::Value) -> (written: Result<Vec<u8>, serde_json::Error>)
    ensures
        match written {
            Ok(bytes) => {
                &&& bytes@ == written_bytes(value_view(*value))
                &&& value_view(*value) is Null ==> bytes@ == null_bytes()
                &&& value_view(*value) == JsonView::Object(Map::empty()) ==> bytes@
                    == empty_object_bytes()
            },
            Err(_) => false,
        },
{
    serde_json::to_vec(value)
}

/// `serde_json::to_string` at `serde_json::Value`, the text whose UTF-8 bytes `serde_json::to_vec`
/// gives.
#[verifier::external_body]
fn write_text(value: &serde_json::Value) -> (written: Result<String, serde_json::Error>)
    ensures
        match written {
            Ok(text) => vstd::utf8::encode_utf8(text@) == written_bytes(value_view(*value)),
            Err(_) => false,
        },
{
    serde_json::to_string(value)
}

impl Json {
    /// The document that `value` says.
    pub fn from_value(value: serde_json::Value) -> (document: Json)
        ensures
            document@ == value_view(value),
        decreases value_view(value),
    {
        let ghost whole = value_view(value);
        match open_value(value) {
            ValueLevel::Null => Json::Null,
            ValueLevel::Bool(flag) => Json::Bool(flag),
            ValueLevel::Number(number) => Json::Number(number),
            ValueLevel::String(text) => Json::String(text),
            ValueLevel::Array(values) => {
                let ghost all = values@;
                let mut items: Vec<Json> = Vec::new();
                for item in it: values
                    invariant
                        it.seq() == all,
                        whole == value_view(value),
                        whole == JsonView::Array(
                            Seq::new(all.len(), |i: int| value_view(all[i])),
                        ),
                        items@.len() == it.index(),
                        forall|j: int| 0 <= j < items@.len() ==> items@[j]@ == value_view(all[j]),
                {
                    assert(value_view(item) == whole->Array_0[it.index()]);
                    assert(decreases_to!(whole => whole->Array_0));
                    assert(decreases_to!(whole->Array_0 => whole->Array_0[it.index()]));
                    items.push(Json::from_value(item));
                }
                assert(items_view(items@) =~= whole->Array_0);
                Json::Array(items)
            },
            ValueLevel::Object(values) => {
                let ghost all = values@;
                let mut members = no_members();
                assert(all.take(0) =~= Seq::empty());
                for pair in it: values
                    invariant
                        it.seq() == all,
                        whole == value_view(value),
                        whole == JsonView::Object(value_members(all)),
                        distinct_names(all),
                        members_view(members) == value_members(all.take(it.index())),
                {
                    proof {
                        let i = it.index();
                        assert(all.take(i + 1).drop_last() =~= all.take(i));
                        lemma_distinct_members_kept(all, i);
                        assert(decreases_to!(whole => whole->Object_0));
                        assert(decreases_to!(whole->Object_0 => whole->Object_0[pair.0@]));
                    }
                    let (name, member) = pair;
                    members = put(members, name.as_str(), Json::from_value(member));
                }
                assert(all.take(all.len() as int) =~= all);
                Json::Object(members)
            },
        }
    }

    /// The `serde_json::Value` that says what this document says.
    pub fn into_value(self) -> (value: serde_json::Value)
        ensures
            value_view(value) == self@,
        decreases self,
    {
        let ghost whole = self;
        match self {
            Json::Null => close_value(ValueLevel::Null),
            Json::Bool(flag) => close_value(ValueLevel::Bool(flag)),
            Json::Number(number) => close_value(ValueLevel::Number(number)),
            Json::String(text) => close_value(ValueLevel::String(text)),
            Json::Array(items) => {
                let ghost all = items@;
                let mut values: Vec<serde_json::Value> = Vec::new();
                for item in it: items
                    invariant
                        it.seq() == all,
                        whole == self,
                        whole matches Json::Array(inner) && inner@ == all,
                        values@.len() == it.index(),
                        forall|j: int| 0 <= j < values@.len() ==> value_view(values@[j]) == all[j]@,
                {
                    assert(decreases_to!(whole => whole->Array_0));
                    assert(decreases_to!(whole->Array_0 => whole->Array_0@));
                    assert(decreases_to!(whole->Array_0@ => whole->Array_0@[it.index()]));
                    values.push(item.into_value());
                }
                let level = ValueLevel::Array(values);
                assert(level@->Array_0 =~= items_view(all));
                close_value(level)
            },
            Json::Object(members) => {
                let entries = members.into_entries();
                let ghost all = entries@;
                let mut values: Vec<(String, serde_json::Value)> = Vec::new();
                proof {
                    lemma_entries_kept(all);
                }
                for entry in it: entries
                    invariant
                        it.seq() == all,
                        whole == self,
                        whole == Json::Object(members),
                        members@ == entries_map(all),
                        forall|j: int|
                            0 <= j < all.len() ==> members@.contains_pair(
                                (#[trigger] all[j]).0@,
                                all[j].1,
                            ),
                        values@.len() == it.index(),
                        forall|j: int|
                            0 <= j < values@.len() ==> (#[trigger] values@[j]).0 == all[j].0
                                && value_view(values@[j].1) == all[j].1@,
                {
                    proof {
                        lemma_values_are_smaller(members, all[it.index()].0@);
                        assert(decreases_to!(whole => whole->Object_0));
                    }
                    let (name, document) = entry;
                    values.push((name, document.into_value()));
                }
                proof {
                    lemma_values_of_members(values@, all, members);
                    assert forall|i: int, j: int| 0 <= i < j < values@.len() implies values@[i].0@
                        != values@[j].0@ by {
                        lemma_ascending_distinct(all, i, j);
                    }
                }
                close_value(ValueLevel::Object(values))
            },
        }
    }

    /// Reads `bytes` as one JSON document.
    pub fn from_slice(bytes: &[u8]) -> (read: Result<Json, serde_json::Error>)
        ensures
            match read {
                Ok(document) => read_json(bytes@) == Ok::<JsonView, serde_json::Error>(document@),
                Err(error) => read_json(bytes@) == Err::<JsonView, serde_json::Error>(error),
            },
    {
        match read_value(bytes) {
            Ok(value) => Ok(Json::from_value(value)),
            Err(error) => Err(error),
        }
    }

    /// Writes this document as JSON bytes.
    pub fn to_vec(self) -> (written: Result<Vec<u8>, serde_json::Error>)
        ensures
            written matches Ok(bytes) && {
                &&& bytes@ == written_bytes(self@)
                &&& self@ is Null ==> bytes@ == null_bytes()
                &&& self@ == JsonView::Object(Map::empty()) ==> bytes@ == empty_object_bytes()
            },
    {
        write_bytes(&self.into_value())
    }

    /// Writes this document as JSON text.
    pub fn to_text(self) -> (written: Result<String, serde_json::Error>)
        ensures
            written matches Ok(text) && vstd::utf8::encode_utf8(text@) == written_bytes(self@),
    {
        write_text(&self.into_value())
    }
}

} // verus!
