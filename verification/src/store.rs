//! The store itself: hash maps keyed by tag-set key, with the lookup that
//! falls back through declared dependencies.

use crate::key::{hash_line, tag_key};
use crate::model::Scopes;
use std::collections::HashMap;
use vstd::hash_map::StringHashMap;
use vstd::prelude::*;

verus! {

broadcast use vstd::std_specs::hash::group_hash_axioms;

/// What is suggested for a variable: a text to display and, optionally, a
/// configuration for whatever parses the choice. The store hands both back as
/// they came in and never looks inside.
pub type Suggestion<O> = (String, Option<O>);

/// Suggestions for variables, filed by tag set, with fallback from one tag
/// set to others.
///
/// A store is filled by `insert_suggestion` and `insert_dependency`, in any
/// order, and read by `get_suggestion`. Nothing is ever removed. Tag sets are
/// told apart by their keys alone, so two tag sets with the same key are one
/// tag set to the store.
#[verifier::reject_recursive_types(O)]
pub struct VariableMap<O> {
    variables: HashMap<u64, StringHashMap<Suggestion<O>>>,
    dependencies: HashMap<u64, Vec<u64>>,
}

impl<O> View for VariableMap<O> {
    type V = Scopes<Suggestion<O>>;

    closed spec fn view(&self) -> Scopes<Suggestion<O>> {
        Scopes {
            variables: self.variables@.map_values(|scope: StringHashMap<Suggestion<O>>| scope@),
            dependencies: self.dependencies@.map_values(|keys: Vec<u64>| keys@),
        }
    }
}

impl<O> VariableMap<O> {
    /// Makes a store that holds nothing.
    pub fn new() -> (store: Self)
        ensures
            store@ == Scopes::<Suggestion<O>>::empty(),
    {
        let store = Self { variables: HashMap::new(), dependencies: HashMap::new() };
        assert(store@.variables =~= Map::empty());
        assert(store@.dependencies =~= Map::empty());
        store
    }

    /// Declares that lookups in the context of `tags` may fall back to the
    /// suggestions of `tags_dependency`.
    ///
    /// The dependency goes behind those declared for `tags` before, and is
    /// recorded again where it was declared already.
    pub fn insert_dependency(&mut self, tags: &str, tags_dependency: &str)
        ensures
            final(self)@ == old(self)@.with_dependency(tag_key(tags@), tag_key(tags_dependency@)),
    {
        let key = hash_line(tags);
        let dependency = hash_line(tags_dependency);
        let fallbacks = self.dependencies.entry(key).or_insert(Vec::new());
        fallbacks.push(dependency);
        assert(self@.dependencies =~= old(self)@.with_dependency(key, dependency).dependencies);
    }

    /// Files `value` as the suggestion for `variable` in the context of
    /// `tags`, in place of an earlier suggestion for the same variable there.
    pub fn insert_suggestion(&mut self, tags: &str, variable: &str, value: Suggestion<O>)
        ensures
            final(self)@ == old(self)@.with_suggestion(tag_key(tags@), variable@, value),
    {
        let key = hash_line(tags);
        let name = variable.to_owned();
        let scope = self.variables.entry(key).or_insert(StringHashMap::new());
        scope.insert(name, value);
        assert(self@.variables =~= old(self)@.with_suggestion(key, variable@, value).variables);
    }

    /// Looks up the suggestion for `variable` in the context of `tags`.
    ///
    /// The tag set's own suggestion comes first. Where it has none, the tag
    /// sets it depends on are tried in the order they were declared, up to
    /// the first that defines `variable`; the tag sets that those depend on
    /// in turn are not tried.
    ///
    /// Two cases end the lookup early with nothing found, and a caller
    /// cannot tell them from a variable that is defined nowhere:
    /// - no suggestion was ever filed under `tags` itself, for any variable:
    ///   its dependencies are then not tried at all;
    /// - the search reaches a dependency under which no suggestion was ever
    ///   filed: the dependencies declared after it are then not tried.
    pub fn get_suggestion(&self, tags: &str, variable: &str) -> (found: Option<&Suggestion<O>>)
        ensures
            match found {
                Some(suggestion) => self@.resolve(tag_key(tags@), variable@) == Some(*suggestion),
                None => self@.resolve(tag_key(tags@), variable@) is None,
            },
    {
        let key = hash_line(tags);
        // A tag set without a scope of its own ends the lookup here.
        let local = self.variables.get(&key)?.get(variable);
        if local.is_some() {
            return local;
        }
        if let Some(fallbacks) = self.dependencies.get(&key) {
            let mut i: usize = 0;
            assert(fallbacks@.skip(0) =~= fallbacks@);
            while i < fallbacks.len()
                invariant
                    i <= fallbacks@.len(),
                    self@.resolve(tag_key(tags@), variable@) == self@.search(
                        fallbacks@.skip(i as int),
                        variable@,
                    ),
                decreases fallbacks@.len() - i,
            {
                assert(fallbacks@.skip(i as int).drop_first() =~= fallbacks@.skip(i + 1));
                // A dependency without a scope ends the whole search, not
                // only its own turn.
                let inherited = self.variables.get(&fallbacks[i])?.get(variable);
                if inherited.is_some() {
                    return inherited;
                }
                i += 1;
            }
        }
        None
    }
}

} // verus!
