//! A JSON value model and the ordered key/value tables that the request
//! builder keeps (headers, JSON body fields).
use vstd::prelude::*;

use crate::text::str_eq;

verus! {

/// A JSON value. Numbers keep their literal text; objects keep their members
/// in order, where a later member with a repeated key wins.
#[derive(Debug)]
pub enum Json {
    Null,
    Bool(bool),
    Number(String),
    Str(String),
    Array(Vec<Json>),
    Object(Vec<(String, Json)>),
}

/// `v` is a JSON number written `text`.
pub open spec fn is_number(v: Json, text: Seq<char>) -> bool {
    v is Number && v->Number_0@ == text
}

/// `v` is a JSON string holding `text`.
pub open spec fn is_str(v: Json, text: Seq<char>) -> bool {
    v is Str && v->Str_0@ == text
}

impl Json {
    /// A JSON string holding a copy of `s`.
    pub fn string(s: &str) -> (r: Json)
        ensures
            is_str(r, s@),
    {
        Json::Str(crate::text::owned(s))
    }
}

/// The value of the first member of `s` named `k`.
pub open spec fn field(s: Seq<(String, Json)>, k: Seq<char>) -> Option<Json>
    decreases s.len(),
{
    if s.len() == 0 {
        None
    } else if s[0].0@ == k {
        Some(s[0].1)
    } else {
        field(s.drop_first(), k)
    }
}

/// The value of the first member of `members` named `key`.
pub fn get_field<'a>(members: &'a Vec<(String, Json)>, key: &str) -> (r: Option<&'a Json>)
    ensures
        r is Some <==> field(members@, key@) is Some,
        r is Some ==> *r->Some_0 == field(members@, key@)->Some_0,
{
    let mut i: usize = 0;
    assert(members@.subrange(0, members@.len() as int) =~= members@);
    while i < members.len()
        invariant
            i <= members@.len(),
            field(members@, key@) == field(members@.subrange(i as int, members@.len() as int), key@),
        decreases members@.len() - i,
    {
        let ghost rest = members@.subrange(i as int, members@.len() as int);
        assert(rest.drop_first() =~= members@.subrange(i + 1, members@.len() as int));
        if str_eq(members[i].0.as_str(), key) {
            return Some(&members[i].1);
        }
        i = i + 1;
    }
    None
}

/// No two entries share a key.
pub open spec fn keys_unique<V>(s: Seq<(String, V)>) -> bool {
    forall|i: int, j: int|
        0 <= i < s.len() && 0 <= j < s.len() && i != j ==> #[trigger] s[i].0@ != #[trigger] s[j].0@
}

/// The mapping that a sequence of entries stands for: each key to the value
/// of its last entry.
pub open spec fn entry_map<V>(s: Seq<(String, V)>) -> Map<Seq<char>, V>
    decreases s.len(),
{
    if s.len() == 0 {
        Map::empty()
    } else {
        entry_map(s.drop_last()).insert(s.last().0@, s.last().1)
    }
}

/// Some entry of `s` has key `k`.
pub open spec fn has_key<V>(s: Seq<(String, V)>, k: Seq<char>) -> bool {
    exists|i: int| 0 <= i < s.len() && #[trigger] s[i].0@ == k
}

/// `s` with the value for `key` replaced in place, or a new entry appended
/// when `key` is absent: what [`upsert`] does.
pub open spec fn upserted<V>(s: Seq<(String, V)>, key: String, value: V) -> Seq<(String, V)> {
    if has_key(s, key@) {
        let i = choose|i: int| 0 <= i < s.len() && #[trigger] s[i].0@ == key@;
        s.update(i, (key, value))
    } else {
        s.push((key, value))
    }
}

/// The keys of `entry_map(s)` are exactly the keys that occur in `s`.
pub proof fn lemma_entry_map_dom<V>(s: Seq<(String, V)>, k: Seq<char>)
    ensures
        entry_map(s).dom().contains(k) <==> has_key(s, k),
    decreases s.len(),
{
    if s.len() > 0 {
        let t = s.drop_last();
        lemma_entry_map_dom(t, k);
        if has_key(t, k) {
            let i = choose|i: int| 0 <= i < t.len() && #[trigger] t[i].0@ == k;
            assert(s[i].0@ == k);
        }
        if has_key(s, k) && s.last().0@ != k {
            let i = choose|i: int| 0 <= i < s.len() && #[trigger] s[i].0@ == k;
            assert(t[i].0@ == k);
        }
    }
}

/// With unique keys, each entry's value is the value of its key.
pub proof fn lemma_entry_map_value<V>(s: Seq<(String, V)>, i: int)
    requires
        keys_unique(s),
        0 <= i < s.len(),
    ensures
        entry_map(s).contains_key(s[i].0@),
        entry_map(s)[s[i].0@] == s[i].1,
    decreases s.len(),
{
    let t = s.drop_last();
    if i < s.len() - 1 {
        assert(keys_unique(t)) by {
            assert forall|a: int, b: int|
                0 <= a < t.len() && 0 <= b < t.len() && a != b implies #[trigger] t[a].0@
                != #[trigger] t[b].0@ by {
                assert(s[a] == t[a] && s[b] == t[b]);
            }
        }
        lemma_entry_map_value(t, i);
        assert(s[s.len() - 1].0@ != s[i].0@);
        assert(t[i] == s[i]);
    }
}

/// Replacing the entry at `i` by one with the same key sets that key's value,
/// provided the keys are unique.
pub proof fn lemma_entry_map_update<V>(s: Seq<(String, V)>, i: int, e: (String, V))
    requires
        keys_unique(s),
        0 <= i < s.len(),
        e.0@ == s[i].0@,
    ensures
        entry_map(s.update(i, e)) == entry_map(s).insert(e.0@, e.1),
        keys_unique(s.update(i, e)),
    decreases s.len(),
{
    let u = s.update(i, e);
    assert(keys_unique(u)) by {
        assert forall|a: int, b: int|
            0 <= a < u.len() && 0 <= b < u.len() && a != b implies #[trigger] u[a].0@
            != #[trigger] u[b].0@ by {
            assert(u[a].0@ == s[a].0@ && u[b].0@ == s[b].0@);
        }
    }
    let t = s.drop_last();
    if i == s.len() - 1 {
        assert(u.drop_last() == t);
        assert(entry_map(u) =~= entry_map(s).insert(e.0@, e.1));
    } else {
        assert(keys_unique(t)) by {
            assert forall|a: int, b: int|
                0 <= a < t.len() && 0 <= b < t.len() && a != b implies #[trigger] t[a].0@
                != #[trigger] t[b].0@ by {
                assert(s[a] == t[a] && s[b] == t[b]);
            }
        }
        lemma_entry_map_update(t, i, e);
        assert(u.drop_last() == t.update(i, e));
        assert(s.last().0@ != e.0@) by {
            assert(s[s.len() - 1].0@ != s[i].0@);
        }
        assert(entry_map(u) =~= entry_map(s).insert(e.0@, e.1));
    }
}

/// Inserting an entry as [`upsert`] does keeps the keys unique and sets the key's value.
pub proof fn lemma_upserted<V>(s: Seq<(String, V)>, key: String, value: V)
    requires
        keys_unique(s),
    ensures
        keys_unique(upserted(s, key, value)),
        entry_map(upserted(s, key, value)) == entry_map(s).insert(key@, value),
        upserted(s, key, value).len() == s.len() + if has_key(s, key@) {
            0int
        } else {
            1int
        },
{
    if has_key(s, key@) {
        let i = choose|i: int| 0 <= i < s.len() && #[trigger] s[i].0@ == key@;
        lemma_entry_map_update(s, i, (key, value));
    } else {
        let u = s.push((key, value));
        assert(u.drop_last() == s);
        assert forall|a: int, b: int|
            0 <= a < u.len() && 0 <= b < u.len() && a != b implies #[trigger] u[a].0@
            != #[trigger] u[b].0@ by {
            if a == s.len() {
                assert(s[b].0@ != key@);
            } else if b == s.len() {
                assert(s[a].0@ != key@);
            } else {
                assert(u[a] == s[a] && u[b] == s[b]);
            }
        }
    }
}

/// The position of the entry with key `key`, if there is one.
pub fn find_key<V>(entries: &Vec<(String, V)>, key: &str) -> (r: Option<usize>)
    ensures
        r is Some <==> has_key(entries@, key@),
        r is Some ==> r->Some_0 < entries@.len() && entries@[r->Some_0 as int].0@ == key@,
{
    let mut i: usize = 0;
    while i < entries.len()
        invariant
            i <= entries@.len(),
            forall|j: int| 0 <= j < i ==> #[trigger] entries@[j].0@ != key@,
        decreases entries@.len() - i,
    {
        if str_eq(entries[i].0.as_str(), key) {
            return Some(i);
        }
        i = i + 1;
    }
    None
}

/// Sets `key` to `value`: the entry with that key keeps its place and takes
/// the new value, or a new entry goes to the end.
pub fn upsert<V>(entries: &mut Vec<(String, V)>, key: String, value: V)
    requires
        keys_unique(old(entries)@),
    ensures
        final(entries)@ == upserted(old(entries)@, key, value),
        keys_unique(final(entries)@),
        entry_map(final(entries)@) == entry_map(old(entries)@).insert(key@, value),
{
    proof {
        lemma_upserted(entries@, key, value);
    }
    match find_key(entries, key.as_str()) {
        Some(i) => {
            proof {
                let c = choose|c: int| 0 <= c < entries@.len() && #[trigger] entries@[c].0@ == key@;
                assert(c == i as int);
            }
            entries.set(i, (key, value));
        },
        None => {
            entries.push((key, value));
        },
    }
}

} // verus!
