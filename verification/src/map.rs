//! A map from text to text: StorageClass parameters and volume contexts.

use crate::outside::{self, entries_map};
use crate::text;
use vstd::prelude::*;

verus! {

/// A map from text to text. Each key has one entry.
pub struct ParamMap {
    entries: Vec<(String, String)>,
}

impl View for ParamMap {
    type V = Map<Seq<char>, Seq<char>>;

    closed spec fn view(&self) -> Map<Seq<char>, Seq<char>> {
        entries_map(self.entries@)
    }
}

/// No key occurs twice.
spec fn distinct_keys(l: Seq<(String, String)>) -> bool {
    forall|i: int, j: int| 0 <= i < j < l.len() ==> #[trigger] l[i].0@ != #[trigger] l[j].0@
}

proof fn lemma_entries(l: Seq<(String, String)>)
    requires
        distinct_keys(l),
    ensures
        forall|i: int|
            0 <= i < l.len() ==> entries_map(l).contains_key(#[trigger] l[i].0@) && entries_map(
                l,
            )[l[i].0@] == l[i].1@,
        forall|k: Seq<char>| #[trigger]
            entries_map(l).contains_key(k) ==> exists|i: int|
                0 <= i < l.len() && #[trigger] l[i].0@ == k,
    decreases l.len(),
{
    if l.len() > 0 {
        let d = l.drop_last();
        assert forall|i: int, j: int| 0 <= i < j < d.len() implies #[trigger] d[i].0@
            != #[trigger] d[j].0@ by {
            assert(l[i].0@ != l[j].0@);
        }
        lemma_entries(d);
        assert forall|i: int| 0 <= i < l.len() implies entries_map(l).contains_key(
            #[trigger] l[i].0@,
        ) && entries_map(l)[l[i].0@] == l[i].1@ by {
            if i < d.len() {
                assert(d[i] == l[i]);
                assert(l[i].0@ != l[l.len() - 1].0@);
            }
        }
        assert forall|k: Seq<char>| #[trigger] entries_map(l).contains_key(k) implies exists|i: int|
            0 <= i < l.len() && #[trigger] l[i].0@ == k by {
            if k == l.last().0@ {
                assert(l[l.len() - 1].0@ == k);
            } else {
                assert(entries_map(d).contains_key(k));
                let i = choose|i: int| 0 <= i < d.len() && #[trigger] d[i].0@ == k;
                assert(l[i].0@ == k);
            }
        }
    }
}

proof fn lemma_replaced_entry(l: Seq<(String, String)>, i: int, e: (String, String))
    requires
        distinct_keys(l),
        0 <= i < l.len(),
        l[i].0@ == e.0@,
    ensures
        distinct_keys(l.update(i, e)),
        entries_map(l.update(i, e)) == entries_map(l).insert(e.0@, e.1@),
    decreases l.len(),
{
    let u = l.update(i, e);
    assert forall|a: int, b: int| 0 <= a < b < u.len() implies #[trigger] u[a].0@
        != #[trigger] u[b].0@ by {
        assert(l[a].0@ != l[b].0@);
    }
    let d = l.drop_last();
    assert forall|a: int, b: int| 0 <= a < b < d.len() implies #[trigger] d[a].0@
        != #[trigger] d[b].0@ by {
        assert(l[a].0@ != l[b].0@);
    }
    if i == l.len() - 1 {
        assert(u.drop_last() =~= d);
        assert(entries_map(u) =~= entries_map(l).insert(e.0@, e.1@));
    } else {
        lemma_replaced_entry(d, i, e);
        assert(u.drop_last() =~= d.update(i, e));
        assert(l[i].0@ != l[l.len() - 1].0@);
        assert(entries_map(u) =~= entries_map(l).insert(e.0@, e.1@));
    }
}

impl ParamMap {
    #[verifier::type_invariant]
    spec fn wf(self) -> bool {
        distinct_keys(self.entries@)
    }

    /// The map with no entry.
    pub fn new() -> (r: ParamMap)
        ensures
            r@ == Map::<Seq<char>, Seq<char>>::empty(),
    {
        ParamMap { entries: Vec::new() }
    }

    fn position(&self, key: &str) -> (r: Option<usize>)
        ensures
            match r {
                Some(i) => i < self.entries@.len() && self.entries@[i as int].0@ == key@,
                None => forall|i: int|
                    0 <= i < self.entries@.len() ==> #[trigger] self.entries@[i].0@ != key@,
            },
    {
        let mut i: usize = 0;
        while i < self.entries.len()
            invariant
                i <= self.entries@.len(),
                forall|j: int| 0 <= j < i ==> #[trigger] self.entries@[j].0@ != key@,
            decreases self.entries@.len() - i,
        {
            if text::same(self.entries[i].0.as_str(), key) {
                return Some(i);
            }
            i = i + 1;
        }
        None
    }

    /// The text at `key`.
    pub fn get(&self, key: &str) -> (r: Option<&String>)
        ensures
            match r {
                Some(v) => self@.contains_key(key@) && v@ == self@[key@],
                None => !self@.contains_key(key@),
            },
    {
        proof {
            use_type_invariant(self);
            lemma_entries(self.entries@);
        }
        match self.position(key) {
            Some(i) => Some(&self.entries[i].1),
            None => None,
        }
    }

    /// Sets the text at `key`.
    pub fn insert(&mut self, key: String, value: String)
        ensures
            final(self)@ == old(self)@.insert(key@, value@),
    {
        proof {
            use_type_invariant(&*self);
        }
        let found = self.position(key.as_str());
        let mut entries: Vec<(String, String)> = Vec::new();
        std::mem::swap(&mut entries, &mut self.entries);
        let ghost l = entries@;
        match found {
            Some(i) => {
                proof {
                    lemma_replaced_entry(l, i as int, (key, value));
                }
                entries.set(i, (key, value));
            },
            None => {
                entries.push((key, value));
                assert(entries@.drop_last() =~= l);
            },
        }
        self.entries = entries;
    }

    /// The JSON object that stands for the map. It reads back as the map, and
    /// is a single line.
    pub fn encode(&self) -> (r: Vec<u8>)
        ensures
            r@ == outside::json_of(self@),
            outside::map_of_json(r@) == Some(self@),
            !r@.contains(10u8),
    {
        proof {
            use_type_invariant(self);
        }
        outside::to_json(&self.entries)
    }

    /// The map that a JSON text stands for, if it is an object of strings.
    pub fn decode(bytes: &[u8]) -> (r: Option<ParamMap>)
        ensures
            match r {
                Some(m) => outside::map_of_json(bytes@) == Some(m@),
                None => outside::map_of_json(bytes@) is None,
            },
    {
        match outside::from_json(bytes) {
            None => None,
            Some(l) => Some(ParamMap::from_entries(l)),
        }
    }

    /// The map that a list of entries stands for; a later entry wins.
    pub fn from_entries(l: Vec<(String, String)>) -> (r: ParamMap)
        ensures
            r@ == entries_map(l@),
    {
        let mut m = ParamMap::new();
        let mut i: usize = 0;
        assert(l@.take(0) =~= Seq::<(String, String)>::empty());
        while i < l.len()
            invariant
                i <= l@.len(),
                m@ == entries_map(l@.take(i as int)),
            decreases l@.len() - i,
        {
            assert(l@.take(i + 1).drop_last() =~= l@.take(i as int));
            m.insert(l[i].0.clone(), l[i].1.clone());
            i = i + 1;
        }
        assert(l@.take(l@.len() as int) =~= l@);
        m
    }

    /// The entries, one for each key.
    pub fn entries(&self) -> (r: &Vec<(String, String)>)
        ensures
            entries_map(r@) == self@,
            forall|i: int, j: int| 0 <= i < j < r@.len() ==> #[trigger] r@[i].0@ != #[trigger] r@[j].0@,
    {
        proof {
            use_type_invariant(self);
        }
        &self.entries
    }
}

impl Clone for ParamMap {
    fn clone(&self) -> (r: ParamMap)
        ensures
            r@ == self@,
    {
        let mut l: Vec<(String, String)> = Vec::new();
        let mut i: usize = 0;
        while i < self.entries.len()
            invariant
                i <= self.entries@.len(),
                l@ == self.entries@.take(i as int),
            decreases self.entries@.len() - i,
        {
            l.push((self.entries[i].0.clone(), self.entries[i].1.clone()));
            assert(l@ =~= self.entries@.take(i + 1));
            i = i + 1;
        }
        assert(l@ =~= self.entries@);
        proof {
            use_type_invariant(self);
        }
        ParamMap { entries: l }
    }
}

/// No entries stand for the empty map, and one more entry sets the text at its
/// key, so that of two entries with one key the later counts.
pub proof fn law_later_entry_wins(l: Seq<(String, String)>, e: (String, String))
    ensures
        entries_map(Seq::<(String, String)>::empty()) =~= Map::<Seq<char>, Seq<char>>::empty(),
        entries_map(l.push(e)).contains_key(e.0@),
        entries_map(l.push(e))[e.0@] == e.1@,
        forall|k: Seq<char>|
            k != e.0@ ==> (#[trigger] entries_map(l.push(e)).contains_key(k) <==> entries_map(
                l,
            ).contains_key(k)),
        forall|k: Seq<char>|
            k != e.0@ && entries_map(l).contains_key(k) ==> #[trigger] entries_map(l.push(e))[k]
                == entries_map(l)[k],
{
    assert(l.push(e).drop_last() =~= l);
}

/// What the operations of a map come to. What is encoded reads back, and is one
/// line.
pub proof fn law_map_operations(
    m: &ParamMap,
    made: ParamMap,
    key: &str,
    v: Option<&String>,
    bytes: Vec<u8>,
    text: &[u8],
    read: Option<ParamMap>,
    l: Vec<(String, String)>,
)
    ensures
        call_ensures(ParamMap::new, (), made) ==> made@ =~= Map::<Seq<char>, Seq<char>>::empty(),
        call_ensures(ParamMap::get, (m, key), v) ==> (v is Some <==> m@.contains_key(key@)),
        call_ensures(ParamMap::get, (m, key), v) ==> (v matches Some(s) ==> s@ == m@[key@]),
        call_ensures(ParamMap::encode, (m,), bytes) ==> outside::map_of_json(bytes@) == Some(m@)
            && bytes@ == outside::json_of(m@) && !bytes@.contains(10u8),
        call_ensures(ParamMap::decode, (text,), read) ==> outside::map_of_json(text@) == (
        match read {
            Some(x) => Some(x@),
            None => None,
        }),
        call_ensures(ParamMap::from_entries, (l,), made) ==> made@ == entries_map(l@),
{
}

} // verus!
