use vstd::prelude::*;

use crate::strmap::{StrPair, StrStore, map_of, unique_keys};

verus! {

/// The evaluation context of a render: named string values that a template's
/// expressions can reference. It models the fields of the data value being
/// rendered, so each name is bound once.
pub struct Context {
    store: StrStore,
}

impl View for Context {
    type V = Map<Seq<char>, Seq<char>>;

    closed spec fn view(&self) -> Map<Seq<char>, Seq<char>> {
        self.store@
    }
}

impl Context {
    /// An empty context.
    pub fn new() -> (r: Context)
        ensures
            r@ == Map::<Seq<char>, Seq<char>>::empty(),
    {
        Context { store: StrStore::new() }
    }

    /// Binds `value` under the fresh name `key`.
    pub fn insert(&mut self, key: String, value: String)
        requires
            !old(self)@.contains_key(key@),
        ensures
            final(self)@ == old(self)@.insert(key@, value@),
    {
        self.store.insert(key, value);
    }

    /// Borrows the bindings as entries denoting exactly this context's map,
    /// each name once.
    pub(crate) fn pairs(&self) -> (r: &Vec<StrPair>)
        ensures
            unique_keys(r@),
            map_of(r@) == self@,
    {
        self.store.entries()
    }
}

} // verus!
