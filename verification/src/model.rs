//! The mathematical model of the store: two maps keyed by tag-set key, and
//! the lookup they define.

use vstd::prelude::*;

verus! {

/// What a store holds, as mathematical maps.
///
/// `variables` sends the key of a tag set to its *scope*: the suggestions
/// filed under it, by variable name. `dependencies` sends the key of a tag
/// set to the keys it falls back to, in the order they were declared. The two
/// maps are independent: a key may occur in either, both or neither.
pub struct Scopes<V> {
    pub variables: Map<u64, Map<Seq<char>, V>>,
    pub dependencies: Map<u64, Seq<u64>>,
}

impl<V> Scopes<V> {
    /// The store that holds nothing.
    pub open spec fn empty() -> Self {
        Scopes { variables: Map::empty(), dependencies: Map::empty() }
    }

    /// Whether any suggestion was ever filed under `key`.
    pub open spec fn has_scope(self, key: u64) -> bool {
        self.variables.contains_key(key)
    }

    /// Whether the scope of `key` holds a suggestion for `variable`.
    pub open spec fn defines(self, key: u64, variable: Seq<char>) -> bool {
        self.variables.contains_key(key) && self.variables[key].contains_key(variable)
    }

    /// The scope of `key`, empty where nothing was filed under it.
    pub open spec fn scope(self, key: u64) -> Map<Seq<char>, V> {
        if self.variables.contains_key(key) {
            self.variables[key]
        } else {
            Map::empty()
        }
    }

    /// The keys that `key` falls back to, in declaration order.
    pub open spec fn fallbacks(self, key: u64) -> Seq<u64> {
        if self.dependencies.contains_key(key) {
            self.dependencies[key]
        } else {
            Seq::empty()
        }
    }

    /// The store after declaring that `key` falls back to `dependency`: the
    /// dependency goes to the end of the list of `key`, also where it already
    /// occurs in it.
    pub open spec fn with_dependency(self, key: u64, dependency: u64) -> Self {
        Scopes {
            variables: self.variables,
            dependencies: self.dependencies.insert(key, self.fallbacks(key).push(dependency)),
        }
    }

    /// The store after filing `value` under `key` for `variable`, in place of
    /// whatever was filed there before.
    pub open spec fn with_suggestion(self, key: u64, variable: Seq<char>, value: V) -> Self {
        Scopes {
            variables: self.variables.insert(key, self.scope(key).insert(variable, value)),
            dependencies: self.dependencies,
        }
    }

    /// The search through the fallback keys `keys`, from the left. The first
    /// key decides unless its scope exists and lacks `variable`: a scope that
    /// defines `variable` ends the search with its suggestion, and a key
    /// without any scope ends it with nothing, whatever follows.
    pub open spec fn search(self, keys: Seq<u64>, variable: Seq<char>) -> Option<V>
        decreases keys.len(),
    {
        if keys.len() == 0 {
            None
        } else if !self.has_scope(keys[0]) {
            None
        } else if self.defines(keys[0], variable) {
            Some(self.variables[keys[0]][variable])
        } else {
            self.search(keys.drop_first(), variable)
        }
    }

    /// The suggestion that a lookup of `variable` under `key` gives.
    ///
    /// A key without a scope of its own resolves to nothing, whatever it
    /// depends on. Otherwise the key's own suggestion comes first, and the
    /// fallback keys are searched only where it has none.
    pub open spec fn resolve(self, key: u64, variable: Seq<char>) -> Option<V> {
        if !self.has_scope(key) {
            None
        } else if self.defines(key, variable) {
            Some(self.variables[key][variable])
        } else {
            self.search(self.fallbacks(key), variable)
        }
    }
}

/// One insertion into a store, by key.
pub enum Insertion<V> {
    /// A suggestion filed under `key` for `variable`.
    Filed { key: u64, variable: Seq<char>, value: V },
    /// A declaration that `key` falls back to `dependency`.
    Declared { key: u64, dependency: u64 },
}

impl<V> Scopes<V> {
    /// The store after one more insertion.
    pub open spec fn after(self, insertion: Insertion<V>) -> Self {
        match insertion {
            Insertion::Filed { key, variable, value } => self.with_suggestion(
                key,
                variable,
                value,
            ),
            Insertion::Declared { key, dependency } => self.with_dependency(key, dependency),
        }
    }

    /// The store that a sequence of insertions builds from nothing, the
    /// first insertion made first.
    pub open spec fn built(insertions: Seq<Insertion<V>>) -> Self
        decreases insertions.len(),
    {
        if insertions.len() == 0 {
            Self::empty()
        } else {
            Self::built(insertions.drop_last()).after(insertions.last())
        }
    }
}

} // verus!
