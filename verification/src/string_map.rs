//! A map from texts to values.

use crate::text::same_text;
use vstd::prelude::*;

verus! {

/// A map from texts to values, kept as a list of entries in which no key occurs twice.
#[derive(Debug)]
pub struct StringMap<V> {
    entries: Vec<(String, V)>,
}

/// No two entries share a key.
pub open spec fn distinct_keys<V>(entries: Seq<(String, V)>) -> bool {
    forall|i: int, j: int|
        0 <= i < j < entries.len() ==> (#[trigger] entries[i]).0@ != (#[trigger] entries[j]).0@
}

/// The map that a list of entries stands for. Where a key occurs twice, the later entry counts.
pub open spec fn map_of<V>(entries: Seq<(String, V)>) -> Map<Seq<char>, V>
    decreases entries.len(),
{
    if entries.len() == 0 {
        Map::empty()
    } else {
        map_of(entries.drop_last()).insert(entries.last().0@, entries.last().1)
    }
}

/// With distinct keys, the map holds exactly the entries.
pub proof fn lemma_map_of<V>(entries: Seq<(String, V)>)
    requires
        distinct_keys(entries),
    ensures
        forall|i: int|
            0 <= i < entries.len() ==> map_of(entries).contains_key(
                (#[trigger] entries[i]).0@,
            ) && map_of(entries)[entries[i].0@] == entries[i].1,
        forall|key: Seq<char>| #[trigger]
            map_of(entries).contains_key(key) ==> exists|i: int|
                0 <= i < entries.len() && (#[trigger] entries[i]).0@ == key,
    decreases entries.len(),
{
    if entries.len() > 0 {
        let rest = entries.drop_last();
        lemma_map_of(rest);
        assert forall|key: Seq<char>| #[trigger] map_of(entries).contains_key(key) implies exists|
            i: int,
        |
            0 <= i < entries.len() && (#[trigger] entries[i]).0@ == key by {
            if key == entries.last().0@ {
                assert(entries[entries.len() - 1].0@ == key);
            } else {
                assert(map_of(rest).contains_key(key));
                let i = choose|i: int| 0 <= i < rest.len() && (#[trigger] rest[i]).0@ == key;
                assert(entries[i].0@ == key);
            }
        }
        assert forall|i: int| 0 <= i < entries.len() implies map_of(entries).contains_key(
            (#[trigger] entries[i]).0@,
        ) && map_of(entries)[entries[i].0@] == entries[i].1 by {
            if i < entries.len() - 1 {
                assert(rest[i] == entries[i]);
                assert(entries[i].0@ != entries[entries.len() - 1].0@);
            }
        }
    }
}

/// Two lists with distinct keys stand for the same map once they hold the same entries.
proof fn lemma_same_map<V>(entries: Seq<(String, V)>, map: Map<Seq<char>, V>)
    requires
        distinct_keys(entries),
        forall|i: int|
            0 <= i < entries.len() ==> map.contains_key((#[trigger] entries[i]).0@)
                && map[entries[i].0@] == entries[i].1,
        forall|key: Seq<char>| #[trigger]
            map.contains_key(key) ==> exists|i: int|
                0 <= i < entries.len() && (#[trigger] entries[i]).0@ == key,
    ensures
        map_of(entries) == map,
{
    lemma_map_of(entries);
    assert forall|key: Seq<char>| map_of(entries).contains_key(key) == map.contains_key(key) by {
        if map.contains_key(key) {
            let i = choose|i: int| 0 <= i < entries.len() && (#[trigger] entries[i]).0@ == key;
            assert(map_of(entries).contains_key(entries[i].0@));
        }
        if map_of(entries).contains_key(key) {
            let i = choose|i: int| 0 <= i < entries.len() && (#[trigger] entries[i]).0@ == key;
            assert(map.contains_key(entries[i].0@));
        }
    }
    assert(map_of(entries) =~= map);
}

impl<V> View for StringMap<V> {
    type V = Map<Seq<char>, V>;

    open spec fn view(&self) -> Map<Seq<char>, V> {
        map_of(self.entry_list())
    }
}

impl<V> StringMap<V> {
    /// The entries, in the order in which their keys came in.
    pub closed spec fn entry_list(self) -> Seq<(String, V)> {
        self.entries@
    }

    /// The entries are a part of the map, so a definition may recurse into them.
    pub proof fn lemma_entries_are_smaller(self)
        ensures
            decreases_to!(self => self.entry_list()),
    {
    }

    #[verifier::type_invariant]
    spec fn well_formed(self) -> bool {
        distinct_keys(self.entries@)
    }

    /// A map without entries.
    pub fn new() -> (map: Self)
        ensures
            map@ == Map::<Seq<char>, V>::empty(),
    {
        StringMap { entries: Vec::new() }
    }

    /// The place of a key in a list of entries.
    fn position(entries: &Vec<(String, V)>, key: &str) -> (place: Option<usize>)
        ensures
            match place {
                Some(i) => i < entries@.len() && entries@[i as int].0@ == key@,
                None => forall|i: int|
                    0 <= i < entries@.len() ==> (#[trigger] entries@[i]).0@ != key@,
            },
    {
        let mut i: usize = 0;
        while i < entries.len()
            invariant
                i <= entries@.len(),
                forall|k: int| 0 <= k < i ==> (#[trigger] entries@[k]).0@ != key@,
            decreases entries@.len() - i,
        {
            if same_text(entries[i].0.as_str(), key) {
                return Some(i);
            }
            i += 1;
        }
        None
    }

    /// The value of a key.
    pub fn get(&self, key: &str) -> (value: Option<&V>)
        ensures
            match value {
                Some(value) => self@.contains_key(key@) && *value == self@[key@],
                None => !self@.contains_key(key@),
            },
    {
        proof {
            use_type_invariant(self);
            lemma_map_of(self.entries@);
        }
        match Self::position(&self.entries, key) {
            Some(i) => Some(&self.entries[i].1),
            None => None,
        }
    }

    /// Gives a key a value, in place of the one that it had.
    pub fn insert(&mut self, key: String, value: V)
        ensures
            final(self)@ == old(self)@.insert(key@, value),
    {
        proof {
            use_type_invariant(&*self);
        }
        let mut entries: Vec<(String, V)> = Vec::new();
        std::mem::swap(&mut entries, &mut self.entries);
        let ghost before = entries@;
        let ghost map = map_of(before).insert(key@, value);
        let ghost name = key@;
        proof {
            lemma_map_of(before);
        }
        match Self::position(&entries, key.as_str()) {
            Some(i) => {
                entries.set(i, (key, value));
                proof {
                    let after = entries@;
                    assert forall|k: Seq<char>| #[trigger] map.contains_key(k) implies exists|
                        j: int,
                    |
                        0 <= j < after.len() && (#[trigger] after[j]).0@ == k by {
                        if k == name {
                            assert(after[i as int].0@ == k);
                        } else {
                            assert(map_of(before).contains_key(k));
                            let j = choose|j: int|
                                0 <= j < before.len() && (#[trigger] before[j]).0@ == k;
                            assert(after[j].0@ == k);
                        }
                    }
                    assert forall|j: int| 0 <= j < after.len() implies map.contains_key(
                        (#[trigger] after[j]).0@,
                    ) && map[after[j].0@] == after[j].1 by {
                        if j != i {
                            assert(after[j] == before[j]);
                            assert(before[j].0@ != before[i as int].0@);
                        }
                    }
                    assert forall|a: int, b: int| 0 <= a < b < after.len() implies (
                    #[trigger] after[a]).0@ != (#[trigger] after[b]).0@ by {
                        assert(before[a].0@ != before[b].0@);
                    }
                    lemma_same_map(after, map);
                }
            },
            None => {
                entries.push((key, value));
                proof {
                    let after = entries@;
                    assert(after.drop_last() =~= before);
                    assert forall|a: int, b: int| 0 <= a < b < after.len() implies (
                    #[trigger] after[a]).0@ != (#[trigger] after[b]).0@ by {
                        assert(after[a] == before[a]);
                        if b < before.len() {
                            assert(before[a].0@ != before[b].0@);
                        }
                    }
                }
            },
        }
        self.entries = entries;
    }

    /// The entries, each key once.
    pub fn entries(&self) -> (entries: &Vec<(String, V)>)
        ensures
            entries@ == self.entry_list(),
            map_of(entries@) == self@,
            distinct_keys(entries@),
    {
        proof {
            use_type_invariant(self);
        }
        &self.entries
    }

    /// Hands the entries out, each key once.
    pub fn into_entries(self) -> (entries: Vec<(String, V)>)
        ensures
            map_of(entries@) == self@,
            distinct_keys(entries@),
    {
        proof {
            use_type_invariant(&self);
        }
        self.entries
    }
}

} // verus!
