//! A small string-to-string map that keeps its entries in insertion order.
use vstd::prelude::*;
use vstd::string::*;
use crate::text::str_eq;

verus! {

broadcast use vstd::string::group_string_axioms;

/// The plain keys and values of a list of entries.
pub open spec fn entries_view(v: Seq<(String, String)>) -> Seq<(Seq<char>, Seq<char>)> {
    v.map_values(|e: (String, String)| (e.0@, e.1@))
}

/// The value of the first entry with key `k`.
pub open spec fn lookup(s: Seq<(Seq<char>, Seq<char>)>, k: Seq<char>) -> Option<Seq<char>>
    decreases s.len(),
{
    if s.len() == 0 {
        None
    } else if s[0].0 == k {
        Some(s[0].1)
    } else {
        lookup(s.drop_first(), k)
    }
}

/// The map that a list of entries stands for: each key maps to its first value.
pub open spec fn entries_map(s: Seq<(Seq<char>, Seq<char>)>) -> Map<Seq<char>, Seq<char>> {
    Map::new(|k: Seq<char>| lookup(s, k) is Some, |k: Seq<char>| lookup(s, k)->0)
}

/// Skipping entries whose key is not `k` does not change the value found for `k`.
pub proof fn lemma_lookup_skip(s: Seq<(Seq<char>, Seq<char>)>, i: int, k: Seq<char>)
    requires
        0 <= i <= s.len(),
        forall|j: int| 0 <= j < i ==> s[j].0 != k,
    ensures
        lookup(s, k) == lookup(s.subrange(i, s.len() as int), k),
    decreases i,
{
    if i > 0 {
        lemma_lookup_skip(s.drop_first(), i - 1, k);
        assert(s.drop_first().subrange(i - 1, s.drop_first().len() as int) == s.subrange(
            i,
            s.len() as int,
        ));
    } else {
        assert(s.subrange(0, s.len() as int) == s);
    }
}

/// Replacing the value of the first entry for `k` changes the lookup of `k` only.
pub proof fn lemma_lookup_update(
    s: Seq<(Seq<char>, Seq<char>)>,
    i: int,
    k: Seq<char>,
    v: Seq<char>,
    k2: Seq<char>,
)
    requires
        0 <= i < s.len(),
        s[i].0 == k,
        forall|j: int| 0 <= j < i ==> s[j].0 != k,
    ensures
        lookup(s.update(i, (k, v)), k2) == if k2 == k {
            Some(v)
        } else {
            lookup(s, k2)
        },
    decreases i,
{
    let u = s.update(i, (k, v));
    if i > 0 {
        lemma_lookup_update(s.drop_first(), i - 1, k, v, k2);
        assert(u.drop_first() =~= s.drop_first().update(i - 1, (k, v)));
        assert(u[0] == s[0]);
    } else {
        assert(u.drop_first() =~= s.drop_first());
    }
}

/// Appending an entry for a key not yet present adds exactly that key.
pub proof fn lemma_lookup_push(
    s: Seq<(Seq<char>, Seq<char>)>,
    k: Seq<char>,
    v: Seq<char>,
    k2: Seq<char>,
)
    requires
        lookup(s, k) is None,
    ensures
        lookup(s.push((k, v)), k2) == if k2 == k {
            Some(v)
        } else {
            lookup(s, k2)
        },
    decreases s.len(),
{
    let p = s.push((k, v));
    if s.len() > 0 {
        assert(s[0].0 != k);
        assert(lookup(s.drop_first(), k) is None);
        lemma_lookup_push(s.drop_first(), k, v, k2);
        assert(p.drop_first() =~= s.drop_first().push((k, v)));
        assert(p[0] == s[0]);
        if s[0].0 == k2 {
            assert(lookup(p, k2) == Some(s[0].1));
        } else {
            assert(lookup(p, k2) == lookup(p.drop_first(), k2));
        }
    } else {
        assert(p.drop_first() =~= Seq::<(Seq<char>, Seq<char>)>::empty());
    }
}

/// The keys of a list of entries, in order.
pub open spec fn keys_of(s: Seq<(Seq<char>, Seq<char>)>) -> Seq<Seq<char>> {
    s.map_values(|e: (Seq<char>, Seq<char>)| e.0)
}

/// A key is found in a list of entries exactly when one of its entries has that key.
pub proof fn lemma_lookup_found(s: Seq<(Seq<char>, Seq<char>)>, k: Seq<char>)
    ensures
        (lookup(s, k) is Some) == keys_of(s).contains(k),
    decreases s.len(),
{
    if s.len() > 0 {
        lemma_lookup_found(s.drop_first(), k);
        assert(keys_of(s.drop_first()) =~= keys_of(s).drop_first());
        if s[0].0 == k {
            assert(keys_of(s)[0] == k);
        } else {
            assert forall|j: int| 0 <= j < keys_of(s).len() && keys_of(s)[j] == k implies
                keys_of(s.drop_first()).contains(k) by {
                assert(j != 0);
                assert(keys_of(s.drop_first())[j - 1] == k);
            }
            if keys_of(s.drop_first()).contains(k) {
                let j = choose|j: int| 0 <= j < keys_of(s.drop_first()).len()
                    && keys_of(s.drop_first())[j] == k;
                assert(keys_of(s)[j + 1] == k);
            }
        }
    }
}

/// The map a list of entries with distinct keys stands for has one key per entry.
pub proof fn lemma_entries_map_len(s: Seq<(Seq<char>, Seq<char>)>)
    requires
        keys_of(s).no_duplicates(),
    ensures
        entries_map(s).dom().len() == s.len(),
{
    assert forall|k: Seq<char>| entries_map(s).dom().contains(k) == keys_of(s).to_set().contains(k) by {
        lemma_lookup_found(s, k);
    }
    assert(entries_map(s).dom() =~= keys_of(s).to_set());
    keys_of(s).unique_seq_to_set();
}

/// A map from strings to strings; inserting a key that is present replaces its value.
pub struct StringMap {
    entries: Vec<(String, String)>,
}

impl StringMap {
    /// No two entries share a key.
    #[verifier::type_invariant]
    closed spec fn distinct_keys(&self) -> bool {
        keys_of(entries_view(self.entries@)).no_duplicates()
    }
}

impl View for StringMap {
    type V = Map<Seq<char>, Seq<char>>;

    closed spec fn view(&self) -> Map<Seq<char>, Seq<char>> {
        entries_map(entries_view(self.entries@))
    }
}

impl StringMap {
    /// The entries in insertion order.
    pub closed spec fn entries(&self) -> Seq<(Seq<char>, Seq<char>)> {
        entries_view(self.entries@)
    }

    /// An empty map.
    pub fn new() -> (r: Self)
        ensures
            r@ == Map::<Seq<char>, Seq<char>>::empty(),
            r.entries() == Seq::<(Seq<char>, Seq<char>)>::empty(),
    {
        let v: Vec<(String, String)> = Vec::new();
        assert(keys_of(entries_view(v@)) =~= Seq::<Seq<char>>::empty());
        let r = StringMap { entries: v };
        assert(r@ =~= Map::<Seq<char>, Seq<char>>::empty());
        assert(r.entries() =~= Seq::<(Seq<char>, Seq<char>)>::empty());
        r
    }

    /// The position of the first entry with the given key.
    fn position(&self, key: &str) -> (r: Option<usize>)
        ensures
            r matches Some(i) ==> i < self.entries@.len() && self.entries@[i as int].0@ == key@
                && forall|j: int| 0 <= j < i ==> self.entries@[j].0@ != key@,
            r is None ==> lookup(entries_view(self.entries@), key@) is None,
    {
        let ghost s = entries_view(self.entries@);
        let mut i: usize = 0;
        while i < self.entries.len()
            invariant
                i <= self.entries@.len(),
                s == entries_view(self.entries@),
                forall|j: int| 0 <= j < i ==> self.entries@[j].0@ != key@,
            decreases self.entries.len() - i,
        {
            if str_eq(self.entries[i].0.as_str(), key) {
                return Some(i);
            }
            i = i + 1;
        }
        proof {
            lemma_lookup_skip(s, i as int, key@);
        }
        None
    }

    /// Sets the value of `key`.
    pub fn insert(&mut self, key: String, value: String)
        ensures
            final(self)@ == old(self)@.insert(key@, value@),
    {
        proof {
            use_type_invariant(&*self);
        }
        let ghost s = entries_view(self.entries@);
        let ghost (k, v) = (key@, value@);
        let found = self.position(key.as_str());
        let mut entries: Vec<(String, String)> = Vec::new();
        assert(keys_of(entries_view(entries@)) =~= Seq::<Seq<char>>::empty());
        std::mem::swap(&mut entries, &mut self.entries);
        match found {
            Some(i) => {
                entries.set(i, (key, value));
                assert(entries_view(entries@) =~= s.update(i as int, (k, v)));
                assert(keys_of(s.update(i as int, (k, v))) =~= keys_of(s));
                assert forall|k2: Seq<char>|
                    lookup(entries_view(entries@), k2) == if k2 == k {
                        Some(v)
                    } else {
                        lookup(s, k2)
                    } by {
                    lemma_lookup_update(s, i as int, k, v, k2);
                }
            },
            None => {
                entries.push((key, value));
                assert(entries_view(entries@) =~= s.push((k, v)));
                proof {
                    lemma_lookup_found(s, k);
                    assert(keys_of(s.push((k, v))) =~= keys_of(s).push(k));
                    assert forall|a: int, b: int|
                        0 <= a < keys_of(s).push(k).len() && 0 <= b < keys_of(s).push(k).len()
                            && a != b implies keys_of(s).push(k)[a] != keys_of(s).push(k)[b] by {
                        if a < keys_of(s).len() && b < keys_of(s).len() {
                        } else if a == keys_of(s).len() {
                            assert(keys_of(s)[b] == keys_of(s).push(k)[b]);
                        } else {
                            assert(keys_of(s)[a] == keys_of(s).push(k)[a]);
                        }
                    }
                }
                assert forall|k2: Seq<char>|
                    lookup(entries_view(entries@), k2) == if k2 == k {
                        Some(v)
                    } else {
                        lookup(s, k2)
                    } by {
                    lemma_lookup_push(s, k, v, k2);
                }
            },
        }
        self.entries = entries;
        assert(self@ =~= old(self)@.insert(k, v));
    }

    /// The value of `key`, if present.
    pub fn get(&self, key: &str) -> (r: Option<&String>)
        ensures
            r is Some == self@.contains_key(key@),
            r matches Some(v) ==> v@ == self@[key@],
    {
        match self.position(key) {
            Some(i) => {
                proof {
                    lemma_lookup_skip(entries_view(self.entries@), i as int, key@);
                }
                Some(&self.entries[i].1)
            },
            None => None,
        }
    }

    /// The number of keys.
    pub fn len(&self) -> (r: usize)
        ensures
            r == self.entries().len(),
            r == self@.dom().len(),
    {
        proof {
            use_type_invariant(self);
            lemma_entries_map_len(entries_view(self.entries@));
        }
        self.entries.len()
    }

    /// The entry at position `i`, in insertion order.
    pub fn entry(&self, i: usize) -> (r: (&String, &String))
        requires
            i < self.entries().len(),
        ensures
            r.0@ == self.entries()[i as int].0,
            r.1@ == self.entries()[i as int].1,
    {
        (&self.entries[i].0, &self.entries[i].1)
    }
}

/// What a map gives back after an insertion: the inserted value under its key, and what it
/// held before under every other key.
pub proof fn lemma_insert_read_back(
    before: Map<Seq<char>, Seq<char>>,
    key: Seq<char>,
    value: Seq<char>,
    other: Seq<char>,
)
    requires
        other != key,
    ensures
        before.insert(key, value).contains_key(key),
        before.insert(key, value)[key] == value,
        before.insert(key, value).contains_key(other) == before.contains_key(other),
        before.contains_key(other) ==> before.insert(key, value)[other] == before[other],
{
}

} // verus!
