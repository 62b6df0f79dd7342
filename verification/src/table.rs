use vstd::prelude::*;

use crate::text::same_text;

verus! {

/// Whether `left` comes before `right` in the order of their bytes.
pub open spec fn bytes_before(left: Seq<u8>, right: Seq<u8>) -> bool
    decreases left.len(),
{
    if right.len() == 0 {
        false
    } else if left.len() == 0 {
        true
    } else if left[0] != right[0] {
        left[0] < right[0]
    } else {
        bytes_before(left.drop_first(), right.drop_first())
    }
}

/// Whether `left` comes before `right` in the order of names, that of their UTF-8 bytes.
pub open spec fn before(left: Seq<char>, right: Seq<char>) -> bool {
    bytes_before(vstd::utf8::encode_utf8(left), vstd::utf8::encode_utf8(right))
}

proof fn lemma_bytes_irreflexive(bytes: Seq<u8>)
    ensures
        !bytes_before(bytes, bytes),
    decreases bytes.len(),
{
    if bytes.len() > 0 {
        lemma_bytes_irreflexive(bytes.drop_first());
    }
}

proof fn lemma_bytes_transitive(a: Seq<u8>, b: Seq<u8>, c: Seq<u8>)
    requires
        bytes_before(a, b),
        bytes_before(b, c),
    ensures
        bytes_before(a, c),
    decreases a.len(),
{
    if a.len() > 0 && a[0] == b[0] && b[0] == c[0] {
        lemma_bytes_transitive(a.drop_first(), b.drop_first(), c.drop_first());
    }
}

/// How two names lie in the order of names.
pub enum NameOrder {
    Before,
    Same,
    After,
}

/// How `left` lies to `right` in the order of names.
pub fn order_names(left: &str, right: &str) -> (order: NameOrder)
    ensures
        match order {
            NameOrder::Before => before(left@, right@),
            NameOrder::Same => left@ == right@,
            NameOrder::After => before(right@, left@),
        },
{
    let a = left.as_bytes();
    let b = right.as_bytes();
    proof {
        vstd::utf8::encode_utf8_decode_utf8(left@);
        vstd::utf8::encode_utf8_decode_utf8(right@);
    }
    let mut i: usize = 0;
    assert(a@.skip(0) =~= a@);
    assert(b@.skip(0) =~= b@);
    while i < a.len() && i < b.len()
        invariant
            i <= a@.len(),
            i <= b@.len(),
            a@ == vstd::utf8::encode_utf8(left@),
            b@ == vstd::utf8::encode_utf8(right@),
            forall|j: int| 0 <= j < i ==> a@[j] == b@[j],
            bytes_before(a@, b@) == bytes_before(a@.skip(i as int), b@.skip(i as int)),
            bytes_before(b@, a@) == bytes_before(b@.skip(i as int), a@.skip(i as int)),
        decreases a@.len() - i,
    {
        assert(a@.skip(i as int).drop_first() =~= a@.skip(i + 1));
        assert(b@.skip(i as int).drop_first() =~= b@.skip(i + 1));
        if a[i] < b[i] {
            return NameOrder::Before;
        }
        if b[i] < a[i] {
            return NameOrder::After;
        }
        i += 1;
    }
    if i < b.len() {
        NameOrder::Before
    } else if i < a.len() {
        NameOrder::After
    } else {
        assert(a@ =~= b@);
        NameOrder::Same
    }
}

/// Whether the names of `entries` ascend.
pub open spec fn ascending<V>(entries: Seq<(String, V)>) -> bool {
    forall|i: int, j: int| 0 <= i < j < entries.len() ==> before(entries[i].0@, entries[j].0@)
}

/// What `entries` hold, by name; of two entries with one name the later counts.
pub open spec fn entries_map<V>(entries: Seq<(String, V)>) -> Map<Seq<char>, V>
    decreases entries.len(),
{
    if entries.len() == 0 {
        Map::empty()
    } else {
        entries_map(entries.drop_last()).insert(entries.last().0@, entries.last().1)
    }
}

/// A map has a name exactly when an entry does.
proof fn lemma_names_kept<V>(entries: Seq<(String, V)>, name: Seq<char>)
    ensures
        entries_map(entries).contains_key(name) <==> exists|i: int|
            0 <= i < entries.len() && (#[trigger] entries[i]).0@ == name,
    decreases entries.len(),
{
    if entries.len() > 0 {
        let rest = entries.drop_last();
        lemma_names_kept(rest, name);
        if entries_map(rest).contains_key(name) {
            let i = choose|i: int| 0 <= i < rest.len() && (#[trigger] rest[i]).0@ == name;
            assert(entries[i].0@ == name);
        }
        if exists|i: int| 0 <= i < entries.len() && (#[trigger] entries[i]).0@ == name {
            let i = choose|i: int| 0 <= i < entries.len() && (#[trigger] entries[i]).0@ == name;
            if i < rest.len() {
                assert(rest[i].0@ == name);
            }
        }
    }
}

/// Where names ascend, each entry keeps its value.
proof fn lemma_ascending_kept<V>(entries: Seq<(String, V)>, i: int)
    requires
        ascending(entries),
        0 <= i < entries.len(),
    ensures
        entries_map(entries).contains_pair(entries[i].0@, entries[i].1),
    decreases entries.len(),
{
    let rest = entries.drop_last();
    if i < rest.len() {
        lemma_ascending_kept(rest, i);
        lemma_bytes_irreflexive(vstd::utf8::encode_utf8(entries[i].0@));
        assert(rest[i] == entries[i]);
        assert(before(entries[i].0@, entries.last().0@));
    }
}

/// Where names ascend, no two are one.
pub proof fn lemma_ascending_distinct<V>(entries: Seq<(String, V)>, i: int, j: int)
    requires
        ascending(entries),
        0 <= i < j < entries.len(),
    ensures
        entries[i].0@ != entries[j].0@,
{
    lemma_bytes_irreflexive(vstd::utf8::encode_utf8(entries[i].0@));
    assert(before(entries[i].0@, entries[j].0@));
}

/// What comes after an entry comes after those before it.
proof fn lemma_before_all<V>(entries: Seq<(String, V)>, i: int, name: Seq<char>)
    requires
        ascending(entries),
        0 <= i < entries.len(),
        before(entries[i].0@, name),
    ensures
        forall|j: int| 0 <= j <= i ==> before(#[trigger] entries[j].0@, name),
{
    assert forall|j: int| 0 <= j <= i implies before(#[trigger] entries[j].0@, name) by {
        if j < i {
            assert(before(entries[j].0@, entries[i].0@));
            lemma_bytes_transitive(
                vstd::utf8::encode_utf8(entries[j].0@),
                vstd::utf8::encode_utf8(entries[i].0@),
                vstd::utf8::encode_utf8(name),
            );
        }
    }
}

/// A table of values by name, its entries in the order of names.
#[derive(Debug, PartialEq, Eq)]
pub struct NameTable<V> {
    entries: Vec<(String, V)>,
}

impl<V> View for NameTable<V> {
    type V = Map<Seq<char>, V>;

    closed spec fn view(&self) -> Map<Seq<char>, V> {
        entries_map(self.entries@)
    }
}

/// An entry of `entries` has each value they hold.
proof fn lemma_values_kept<V>(entries: Seq<(String, V)>, name: Seq<char>) -> (i: int)
    requires
        entries_map(entries).contains_key(name),
    ensures
        0 <= i < entries.len(),
        entries[i].1 == entries_map(entries)[name],
    decreases entries.len(),
{
    let last = entries.len() - 1;
    if entries[last].0@ == name {
        last
    } else {
        lemma_values_kept(entries.drop_last(), name)
    }
}

/// A table is larger than each value in it.
pub proof fn lemma_values_are_smaller<V>(table: NameTable<V>, name: Seq<char>)
    requires
        table@.contains_key(name),
    ensures
        decreases_to!(table => table@[name]),
{
    let i = lemma_values_kept(table.entries@, name);
    assert(decreases_to!(table => table.entries));
    assert(decreases_to!(table.entries => table.entries@));
    assert(decreases_to!(table.entries@ => table.entries@[i]));
    assert(decreases_to!(table.entries@[i] => table.entries@[i].1));
}

/// Each of ascending entries is kept under its name.
pub proof fn lemma_entries_kept<V>(entries: Seq<(String, V)>)
    requires
        ascending(entries),
    ensures
        forall|i: int|
            0 <= i < entries.len() ==> entries_map(entries).contains_pair(
                (#[trigger] entries[i]).0@,
                entries[i].1,
            ),
{
    assert forall|i: int| 0 <= i < entries.len() implies entries_map(entries).contains_pair(
        (#[trigger] entries[i]).0@,
        entries[i].1,
    ) by {
        lemma_ascending_kept(entries, i);
    }
}

impl<V> NameTable<V> {
    /// No name occurs twice: names ascend.
    #[verifier::type_invariant]
    spec fn names_ascend(self) -> bool {
        ascending(self.entries@)
    }

    /// A table without entries.
    pub fn new() -> (table: Self)
        ensures
            table@ == Map::<Seq<char>, V>::empty(),
    {
        NameTable { entries: Vec::new() }
    }

    /// This table with `value` under `name`, in place of what was there.
    pub fn insert(self, name: String, value: V) -> (table: Self)
        ensures
            table@ == self@.insert(name@, value),
    {
        proof {
            use_type_invariant(&self);
        }
        let mut entries = self.entries;
        let ghost all = entries@;
        let mut i: usize = entries.len();
        while i > 0
            invariant
                i <= entries@.len(),
                entries@ == all,
                ascending(all),
                self@ == entries_map(all),
                i < all.len() ==> before(name@, all[i as int].0@),
            decreases i,
        {
            match order_names(entries[i - 1].0.as_str(), name.as_str()) {
                NameOrder::Before => {
                    proof {
                        lemma_before_all(all, i - 1, name@);
                        lemma_inserted(all, i as int, (name, value));
                    }
                    entries.insert(i, (name, value));
                    return NameTable { entries };
                },
                NameOrder::Same => {
                    entries.set(i - 1, (name, value));
                    proof {
                        lemma_replaced(all, i - 1, (name, value));
                        assert(entries@ =~= all.update(i - 1, (name, value)));
                    }
                    return NameTable { entries };
                },
                NameOrder::After => {},
            }
            i -= 1;
        }
        proof {
            lemma_inserted(all, 0, (name, value));
        }
        entries.insert(0, (name, value));
        NameTable { entries }
    }

    /// The value under `name`, when there is one.
    pub fn get(&self, name: &str) -> (found: Option<&V>)
        ensures
            match found {
                Some(value) => self@.contains_pair(name@, *value),
                None => !self@.contains_key(name@),
            },
    {
        proof {
            use_type_invariant(self);
        }
        let mut i: usize = 0;
        while i < self.entries.len()
            invariant
                i <= self.entries@.len(),
                ascending(self.entries@),
                forall|j: int| 0 <= j < i ==> (#[trigger] self.entries@[j]).0@ != name@,
            decreases self.entries@.len() - i,
        {
            if same_text(self.entries[i].0.as_str(), name) {
                proof {
                    lemma_ascending_kept(self.entries@, i as int);
                }
                return Some(&self.entries[i].1);
            }
            i += 1;
        }
        proof {
            lemma_names_kept(self.entries@, name@);
        }
        None
    }

    /// The entries, in the order of their names.
    pub fn entries(&self) -> (entries: &Vec<(String, V)>)
        ensures
            entries_map(entries@) == self@,
            ascending(entries@),
    {
        proof {
            use_type_invariant(self);
        }
        &self.entries
    }

    /// The entries, in the order of their names.
    pub fn into_entries(self) -> (entries: Vec<(String, V)>)
        ensures
            entries_map(entries@) == self@,
            ascending(entries@),
    {
        proof {
            use_type_invariant(&self);
        }
        self.entries
    }

    /// The table of `entries`; of two entries with one name the later counts.
    pub fn from_entries(entries: Vec<(String, V)>) -> (table: Self)
        ensures
            table@ == entries_map(entries@),
    {
        let ghost all = entries@;
        let mut table: NameTable<V> = NameTable::new();
        assert(all.take(0) =~= Seq::empty());
        for entry in it: entries
            invariant
                it.seq() == all,
                table@ == entries_map(all.take(it.index())),
        {
            assert(all.take(it.index() + 1).drop_last() =~= all.take(it.index()));
            let (name, value) = entry;
            table = table.insert(name, value);
        }
        assert(all.take(all.len() as int) =~= all);
        table
    }
}

/// Replacing an entry by one with its name keeps the order and replaces the value.
proof fn lemma_replaced<V>(entries: Seq<(String, V)>, i: int, entry: (String, V))
    requires
        ascending(entries),
        0 <= i < entries.len(),
        entries[i].0@ == entry.0@,
    ensures
        ascending(entries.update(i, entry)),
        entries_map(entries.update(i, entry)) == entries_map(entries).insert(entry.0@, entry.1),
{
    let replaced = entries.update(i, entry);
    let old_map = entries_map(entries).insert(entry.0@, entry.1);
    let new_map = entries_map(replaced);
    assert forall|name: Seq<char>| new_map.contains_key(name) == old_map.contains_key(name) by {
        lemma_names_kept(entries, name);
        lemma_names_kept(replaced, name);
        if exists|j: int| 0 <= j < entries.len() && (#[trigger] entries[j]).0@ == name {
            let j = choose|j: int| 0 <= j < entries.len() && (#[trigger] entries[j]).0@ == name;
            assert(replaced[j].0@ == name);
        }
        if exists|j: int| 0 <= j < replaced.len() && (#[trigger] replaced[j]).0@ == name {
            let j = choose|j: int| 0 <= j < replaced.len() && (#[trigger] replaced[j]).0@ == name;
            assert(entries[j].0@ == name);
        }
        if name == entry.0@ {
            assert(replaced[i].0@ == name);
        }
    }
    assert forall|name: Seq<char>| new_map.contains_key(name) implies new_map[name]
        == old_map[name] by {
        lemma_names_kept(replaced, name);
        let j = choose|j: int| 0 <= j < replaced.len() && (#[trigger] replaced[j]).0@ == name;
        lemma_ascending_kept(replaced, j);
        if j != i {
            lemma_ascending_kept(entries, j);
            lemma_bytes_irreflexive(vstd::utf8::encode_utf8(name));
            assert(replaced[j] == entries[j]);
            assert(j < i ==> before(entries[j].0@, entries[i].0@));
            assert(i < j ==> before(entries[i].0@, entries[j].0@));
        }
    }
    assert(new_map =~= old_map);
}

/// Placing an entry between the names before and after its own keeps the order and adds its value.
proof fn lemma_inserted<V>(entries: Seq<(String, V)>, i: int, entry: (String, V))
    requires
        ascending(entries),
        0 <= i <= entries.len(),
        forall|j: int| 0 <= j < i ==> before(entries[j].0@, entry.0@),
        i < entries.len() ==> before(entry.0@, entries[i].0@),
    ensures
        ascending(entries.insert(i, entry)),
        entries_map(entries.insert(i, entry)) == entries_map(entries).insert(entry.0@, entry.1),
{
    let grown = entries.insert(i, entry);
    assert forall|j: int| i <= j < entries.len() implies before(entry.0@, entries[j].0@) by {
        if j > i {
            assert(before(entries[i].0@, entries[j].0@));
            lemma_bytes_transitive(
                vstd::utf8::encode_utf8(entry.0@),
                vstd::utf8::encode_utf8(entries[i].0@),
                vstd::utf8::encode_utf8(entries[j].0@),
            );
        }
    }
    assert forall|a: int, b: int| 0 <= a < b < grown.len() implies before(
        grown[a].0@,
        grown[b].0@,
    ) by {
        if a != i && b != i {
            let x = if a < i {
                a
            } else {
                a - 1
            };
            let y = if b < i {
                b
            } else {
                b - 1
            };
            assert(grown[a] == entries[x] && grown[b] == entries[y]);
        }
    }
    let old_map = entries_map(entries).insert(entry.0@, entry.1);
    let new_map = entries_map(grown);
    assert forall|name: Seq<char>| new_map.contains_key(name) == old_map.contains_key(name) by {
        lemma_names_kept(entries, name);
        lemma_names_kept(grown, name);
        if exists|j: int| 0 <= j < entries.len() && (#[trigger] entries[j]).0@ == name {
            let j = choose|j: int| 0 <= j < entries.len() && (#[trigger] entries[j]).0@ == name;
            let k = if j < i {
                j
            } else {
                j + 1
            };
            assert(grown[k].0@ == name);
        }
        if exists|j: int| 0 <= j < grown.len() && (#[trigger] grown[j]).0@ == name {
            let j = choose|j: int| 0 <= j < grown.len() && (#[trigger] grown[j]).0@ == name;
            if j < i {
                assert(entries[j].0@ == name);
            } else if j > i {
                assert(entries[j - 1].0@ == name);
            }
        }
        if name == entry.0@ {
            assert(grown[i].0@ == name);
        }
    }
    assert forall|name: Seq<char>| new_map.contains_key(name) implies new_map[name]
        == old_map[name] by {
        lemma_names_kept(grown, name);
        let j = choose|j: int| 0 <= j < grown.len() && (#[trigger] grown[j]).0@ == name;
        lemma_ascending_kept(grown, j);
        if j != i {
            lemma_bytes_irreflexive(vstd::utf8::encode_utf8(name));
            if j < i {
                assert(before(grown[j].0@, grown[i].0@));
                lemma_ascending_kept(entries, j);
            } else {
                assert(before(grown[i].0@, grown[j].0@));
                lemma_ascending_kept(entries, j - 1);
            }
        }
    }
    assert(new_map =~= old_map);
}

} // verus!
