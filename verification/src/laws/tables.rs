use vstd::prelude::*;

use crate::table::{
    ascending, before, bytes_before, entries_map, order_names, NameOrder, NameTable,
};
use crate::text::{decimal, digit, digits, join, same_text};

verus! {

/// Whether `left` lies before `right` in the order of strings: at the first byte where they part,
/// `left` has ended or has the smaller byte.
pub open spec fn precedes(left: Seq<u8>, right: Seq<u8>) -> bool {
    exists|i: int|
        {
            &&& 0 <= i <= left.len()
            &&& i < right.len()
            &&& #[trigger] left.take(i) == right.take(i)
            &&& i == left.len() || left[i] < right[i]
        }
}

/// The number that decimal digits tell, most significant first.
pub open spec fn told_by(text: Seq<char>) -> int
    decreases text.len(),
{
    if text.len() == 0 {
        0
    } else {
        10 * told_by(text.drop_last()) + (text.last() as int - '0' as int)
    }
}

proof fn lemma_digits_tell(n: nat)
    ensures
        told_by(digits(n)) == n,
        digits(n).len() > 0,
        forall|i: int| 0 <= i < digits(n).len() ==> '0' <= #[trigger] digits(n)[i] <= '9',
        n < 10 ==> digits(n).len() == 1,
        n > 0 ==> digits(n)[0] != '0',
    decreases n,
{
    if n < 10 {
        assert(digits(n).drop_last() =~= Seq::empty());
        assert(told_by(Seq::<char>::empty()) == 0);
        assert(digit(n as int) as int - '0' as int == n);
    } else {
        lemma_digits_tell(n / 10);
        let head = digits(n / 10);
        let low = digit((n % 10) as int);
        assert(digits(n).drop_last() =~= head);
        assert(low as int - '0' as int == n % 10);
        assert(digits(n)[0] == head[0]);
        assert forall|i: int| 0 <= i < digits(n).len() implies '0' <= #[trigger] digits(n)[i]
            <= '9' by {
            if i < head.len() {
                assert(digits(n)[i] == head[i]);
            }
        }
    }
}

/// A number is written in the one way that decimal has: its digits tell it, and none of them leads
/// with a zero it does not need.
pub proof fn law_decimal_tells_the_number(n: u32, text: String)
    requires
        call_ensures(decimal, (n,), text),
    ensures
        told_by(text@) == n,
        text@.len() > 0,
        forall|i: int| 0 <= i < text@.len() ==> '0' <= #[trigger] text@[i] <= '9',
        text@.len() > 1 ==> text@[0] != '0',
{
    lemma_digits_tell(n as nat);
}

/// Joined texts can be taken apart again where the first one ends.
pub proof fn law_joined_texts_come_apart(head: &str, tail: &str, text: String)
    requires
        call_ensures(join, (head, tail), text),
    ensures
        text@.len() == head@.len() + tail@.len(),
        text@.take(head@.len() as int) == head@,
        text@.skip(head@.len() as int) == tail@,
{
    assert(text@.take(head@.len() as int) =~= head@);
    assert(text@.skip(head@.len() as int) =~= tail@);
}

/// Two texts are the same exactly when they have the same characters.
pub proof fn law_same_texts_have_the_same_characters(left: &str, right: &str, same: bool)
    requires
        call_ensures(same_text, (left, right), same),
    ensures
        same <==> left@.len() == right@.len() && forall|i: int|
            0 <= i < left@.len() ==> left@[i] == right@[i],
{
    if left@.len() == right@.len() && forall|i: int| 0 <= i < left@.len() ==> left@[i] == right@[i] {
        assert(left@ =~= right@);
    }
}

proof fn lemma_bytes_part(left: Seq<u8>, right: Seq<u8>)
    requires
        bytes_before(left, right),
    ensures
        precedes(left, right),
    decreases left.len(),
{
    if left.len() == 0 || left[0] != right[0] {
        assert(left.take(0) =~= right.take(0));
    } else {
        lemma_bytes_part(left.drop_first(), right.drop_first());
        let l = left.drop_first();
        let r = right.drop_first();
        let i = choose|i: int|
            {
                &&& 0 <= i <= l.len()
                &&& i < r.len()
                &&& #[trigger] l.take(i) == r.take(i)
                &&& i == l.len() || l[i] < r[i]
            };
        assert forall|j: int| 0 <= j < i + 1 implies #[trigger] left[j] == right[j] by {
            if j > 0 {
                assert(l.take(i)[j - 1] == r.take(i)[j - 1]);
            }
        }
        assert(left.take(i + 1) =~= right.take(i + 1));
    }
}

/// Names lie as their UTF-8 bytes do, and in no other way.
pub proof fn law_names_lie_as_their_bytes(left: &str, right: &str, order: NameOrder)
    requires
        call_ensures(order_names, (left, right), order),
    ensures
        order is Same ==> left@ == right@,
        order is Before ==> precedes(
            vstd::utf8::encode_utf8(left@),
            vstd::utf8::encode_utf8(right@),
        ),
        order is After ==> precedes(
            vstd::utf8::encode_utf8(right@),
            vstd::utf8::encode_utf8(left@),
        ),
{
    if order is Before {
        lemma_bytes_part(vstd::utf8::encode_utf8(left@), vstd::utf8::encode_utf8(right@));
    }
    if order is After {
        lemma_bytes_part(vstd::utf8::encode_utf8(right@), vstd::utf8::encode_utf8(left@));
    }
}

/// Nothing is found in a new table.
pub proof fn law_nothing_is_in_a_new_table<V>(table: NameTable<V>, name: &str, found: Option<&V>)
    requires
        call_ensures(NameTable::<V>::new, (), table),
        call_ensures(NameTable::<V>::get, (&table, name), found),
    ensures
        found is None,
{
}

/// What was put under a name is found under it, and what is found under any other name stays.
pub proof fn law_a_table_gives_back_what_was_put<V>(
    table: NameTable<V>,
    name: String,
    value: V,
    more: NameTable<V>,
    asked: &str,
    earlier: Option<&V>,
    found: Option<&V>,
)
    requires
        call_ensures(NameTable::<V>::insert, (table, name, value), more),
        call_ensures(NameTable::<V>::get, (&table, asked), earlier),
        call_ensures(NameTable::<V>::get, (&more, asked), found),
    ensures
        asked@ == name@ ==> found == Some(&value),
        asked@ != name@ ==> found == earlier,
{
}

proof fn lemma_last_entry_counts<V>(entries: Seq<(String, V)>, i: int)
    requires
        0 <= i < entries.len(),
        forall|j: int| i < j < entries.len() ==> (#[trigger] entries[j]).0@ != entries[i].0@,
    ensures
        entries_map(entries).contains_pair(entries[i].0@, entries[i].1),
    decreases entries.len(),
{
    if i < entries.len() - 1 {
        let rest = entries.drop_last();
        assert(entries[entries.len() - 1].0@ != entries[i].0@);
        assert forall|j: int| i < j < rest.len() implies (#[trigger] rest[j]).0@ != rest[i].0@ by {
            assert(entries[j].0@ != entries[i].0@);
        }
        lemma_last_entry_counts(rest, i);
    }
}

proof fn lemma_absent_name<V>(entries: Seq<(String, V)>, name: Seq<char>)
    requires
        forall|i: int| 0 <= i < entries.len() ==> (#[trigger] entries[i]).0@ != name,
    ensures
        !entries_map(entries).contains_key(name),
    decreases entries.len(),
{
    if entries.len() > 0 {
        let rest = entries.drop_last();
        assert(entries[entries.len() - 1].0@ != name);
        assert forall|i: int| 0 <= i < rest.len() implies (#[trigger] rest[i]).0@ != name by {
            assert(entries[i].0@ != name);
        }
        lemma_absent_name(rest, name);
    }
}

/// A table made of entries has the last value given under each name, and no other name.
pub proof fn law_the_last_entry_counts<V>(
    entries: Vec<(String, V)>,
    table: NameTable<V>,
    asked: &str,
    found: Option<&V>,
)
    requires
        call_ensures(NameTable::<V>::from_entries, (entries,), table),
        call_ensures(NameTable::<V>::get, (&table, asked), found),
    ensures
        forall|i: int|
            0 <= i < entries@.len() && (#[trigger] entries@[i]).0@ == asked@ && (forall|j: int|
                i < j < entries@.len() ==> (#[trigger] entries@[j]).0@ != asked@) ==> found == Some(
                &entries@[i].1,
            ),
        (forall|i: int| 0 <= i < entries@.len() ==> (#[trigger] entries@[i]).0@ != asked@)
            ==> found is None,
{
    assert forall|i: int|
        0 <= i < entries@.len() && (#[trigger] entries@[i]).0@ == asked@ && (forall|j: int|
            i < j < entries@.len() ==> (#[trigger] entries@[j]).0@ != asked@) implies found == Some(
        &entries@[i].1,
    ) by {
        lemma_last_entry_counts(entries@, i);
    }
    if forall|i: int| 0 <= i < entries@.len() ==> (#[trigger] entries@[i]).0@ != asked@ {
        lemma_absent_name(entries@, asked@);
    }
}

proof fn lemma_ascending_precedes<V>(entries: Seq<(String, V)>, i: int, j: int)
    requires
        ascending(entries),
        0 <= i < j < entries.len(),
    ensures
        precedes(
            vstd::utf8::encode_utf8(entries[i].0@),
            vstd::utf8::encode_utf8(entries[j].0@),
        ),
{
    assert(before(entries[i].0@, entries[j].0@));
    lemma_bytes_part(
        vstd::utf8::encode_utf8(entries[i].0@),
        vstd::utf8::encode_utf8(entries[j].0@),
    );
}

/// The entries of a table have each name once and in order, however they are taken out.
pub proof fn law_entries_lie_in_order<V>(
    table: NameTable<V>,
    entries: Vec<(String, V)>,
    i: int,
    j: int,
)
    requires
        call_ensures(NameTable::<V>::into_entries, (table,), entries) || call_ensures(
            NameTable::<V>::entries,
            (&table,),
            &entries,
        ),
        0 <= i < j < entries@.len(),
    ensures
        precedes(
            vstd::utf8::encode_utf8(entries@[i].0@),
            vstd::utf8::encode_utf8(entries@[j].0@),
        ),
{
    lemma_ascending_precedes(entries@, i, j);
}

/// A value is found under a name exactly when an entry has it there.
pub proof fn law_found_exactly_among_the_entries<V>(
    table: NameTable<V>,
    entries: Vec<(String, V)>,
    asked: &str,
    found: Option<&V>,
)
    requires
        call_ensures(NameTable::<V>::into_entries, (table,), entries) || call_ensures(
            NameTable::<V>::entries,
            (&table,),
            &entries,
        ),
        call_ensures(NameTable::<V>::get, (&table, asked), found),
    ensures
        forall|i: int|
            0 <= i < entries@.len() && (#[trigger] entries@[i]).0@ == asked@ ==> found == Some(
                &entries@[i].1,
            ),
        (forall|i: int| 0 <= i < entries@.len() ==> (#[trigger] entries@[i]).0@ != asked@)
            ==> found is None,
{
    crate::table::lemma_entries_kept(entries@);
    if forall|i: int| 0 <= i < entries@.len() ==> (#[trigger] entries@[i]).0@ != asked@ {
        lemma_absent_name(entries@, asked@);
    }
}

} // verus!
