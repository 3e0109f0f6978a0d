use vstd::prelude::*;

verus! {

/// One named entry of a string store: a key and the text bound to it.
pub struct StrPair {
    pub key: String,
    pub value: String,
}

/// The finite map a sequence of entries denotes; a later entry for a key
/// shadows an earlier one.
pub open spec fn map_of(s: Seq<StrPair>) -> Map<Seq<char>, Seq<char>>
    decreases s.len(),
{
    if s.len() == 0 {
        Map::empty()
    } else {
        map_of(s.drop_last()).insert(s.last().key@, s.last().value@)
    }
}

/// No two entries share a key.
pub open spec fn unique_keys(s: Seq<StrPair>) -> bool {
    forall|i: int, j: int| 0 <= i < j < s.len() ==> s[i].key@ != s[j].key@
}

/// A key is in the denoted map exactly when some entry holds it.
pub proof fn lemma_map_of_contains(s: Seq<StrPair>, k: Seq<char>)
    ensures
        map_of(s).contains_key(k) <==> exists|i: int| 0 <= i < s.len() && s[i].key@ == k,
    decreases s.len(),
{
    if s.len() > 0 {
        lemma_map_of_contains(s.drop_last(), k);
        if s.last().key@ == k {
            assert(s[s.len() - 1].key@ == k);
        } else {
            if map_of(s).contains_key(k) {
                let i = choose|i: int| 0 <= i < s.drop_last().len() && s.drop_last()[i].key@ == k;
                assert(s[i].key@ == k);
            }
            if exists|i: int| 0 <= i < s.len() && s[i].key@ == k {
                let i = choose|i: int| 0 <= i < s.len() && s[i].key@ == k;
                assert(i < s.len() - 1);
                assert(s.drop_last()[i].key@ == k);
            }
        }
    }
}

/// An entry whose key no later entry repeats gives the key's value in the
/// denoted map.
pub proof fn lemma_map_of_value(s: Seq<StrPair>, i: int)
    requires
        0 <= i < s.len(),
        forall|j: int| i < j < s.len() ==> s[j].key@ != s[i].key@,
    ensures
        map_of(s).contains_key(s[i].key@),
        map_of(s)[s[i].key@] == s[i].value@,
    decreases s.len(),
{
    if i < s.len() - 1 {
        assert(s.drop_last()[i] == s[i]);
        lemma_map_of_value(s.drop_last(), i);
    }
}

/// A store of named strings: a registry-like collection in which each key is
/// bound at most once.
pub struct StrStore {
    entries: Vec<StrPair>,
}

impl View for StrStore {
    type V = Map<Seq<char>, Seq<char>>;

    closed spec fn view(&self) -> Map<Seq<char>, Seq<char>> {
        map_of(self.entries@)
    }
}

impl StrStore {
    #[verifier::type_invariant]
    spec fn wf(self) -> bool {
        unique_keys(self.entries@)
    }

    /// An empty store.
    pub fn new() -> (r: StrStore)
        ensures
            r@ == Map::<Seq<char>, Seq<char>>::empty(),
    {
        StrStore { entries: Vec::new() }
    }

    /// Binds `value` under a key not bound before.
    pub fn insert(&mut self, key: String, value: String)
        requires
            !old(self)@.contains_key(key@),
        ensures
            final(self)@ == old(self)@.insert(key@, value@),
    {
        proof {
            use_type_invariant(&*self);
            lemma_map_of_contains(self.entries@, key@);
        }
        let ghost before = self.entries@;
        let mut entries: Vec<StrPair> = Vec::new();
        std::mem::swap(&mut entries, &mut self.entries);
        entries.push(StrPair { key, value });
        proof {
            assert(entries@.drop_last() =~= before);
        }
        self.entries = entries;
    }

    /// The value bound to `key`, if any.
    pub fn get(&self, key: &String) -> (r: Option<String>)
        ensures
            match r {
                Some(v) => self@.contains_key(key@) && v@ == self@[key@],
                None => !self@.contains_key(key@),
            },
    {
        proof {
            use_type_invariant(&*self);
        }
        let n: usize = self.entries.len();
        let mut i: usize = 0;
        while i < n
            invariant
                n == self.entries@.len(),
                i <= n,
                unique_keys(self.entries@),
                self@ == map_of(self.entries@),
                forall|j: int| 0 <= j < i ==> self.entries@[j].key@ != key@,
            decreases n - i,
        {
            if self.entries[i].key == *key {
                proof {
                    lemma_map_of_value(self.entries@, i as int);
                }
                return Some(self.entries[i].value.clone());
            }
            i = i + 1;
        }
        proof {
            lemma_map_of_contains(self.entries@, key@);
        }
        None
    }

    /// Borrows the entries. Each key occurs once, and together they denote
    /// exactly this store's map.
    pub fn entries(&self) -> (r: &Vec<StrPair>)
        ensures
            unique_keys(r@),
            map_of(r@) == self@,
    {
        proof {
            use_type_invariant(&*self);
        }
        &self.entries
    }
}

} // verus!
