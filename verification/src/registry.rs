use vstd::prelude::*;

use crate::error::RenderError;
use crate::strmap::StrStore;

verus! {

/// The template registry: a read-only collection of named template sources,
/// populated once before rendering starts and looked up by name at render
/// time.
pub struct TemplateRegistry {
    store: StrStore,
}

impl View for TemplateRegistry {
    type V = Map<Seq<char>, Seq<char>>;

    closed spec fn view(&self) -> Map<Seq<char>, Seq<char>> {
        self.store@
    }
}

impl TemplateRegistry {
    /// An empty registry.
    pub fn new() -> (r: TemplateRegistry)
        ensures
            r@ == Map::<Seq<char>, Seq<char>>::empty(),
    {
        TemplateRegistry { store: StrStore::new() }
    }

    /// Adds the template `source` under the fresh name `name`: the registry
    /// is append-only while it is being populated.
    pub fn add_template(&mut self, name: String, source: String)
        requires
            !old(self)@.contains_key(name@),
        ensures
            final(self)@ == old(self)@.insert(name@, source@),
    {
        self.store.insert(name, source);
    }

    /// Looks the named template up. A name the registry holds yields its
    /// source; an absent name always yields `TemplateNotFound`, never a
    /// different error.
    pub fn get_source(&self, name: &String) -> (r: Result<String, RenderError>)
        ensures
            self@.contains_key(name@) ==> (r matches Ok(s) && s@ == self@[name@]),
            !self@.contains_key(name@) ==> r == Result::<String, RenderError>::Err(
                RenderError::TemplateNotFound,
            ),
    {
        match self.store.get(name) {
            Some(source) => Ok(source),
            None => Err(RenderError::TemplateNotFound),
        }
    }
}

} // verus!
