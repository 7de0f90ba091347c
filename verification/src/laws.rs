//! What holds of every store, proved over the model.
//!
//! Each law speaks of `Scopes`, the view of a `VariableMap`: the contracts of
//! the store's functions say which model operation each of them performs, so
//! a law over the model is a law about calls of the store.

use crate::model::{Insertion, Scopes};
use vstd::prelude::*;

verus! {

/// The search through fallback keys stops at position `i` with that key's
/// suggestion, where every key before it has a scope that lacks the variable
/// and the key at `i` defines it.
pub proof fn lemma_search_stops_at_first_definition<V>(
    store: Scopes<V>,
    keys: Seq<u64>,
    variable: Seq<char>,
    i: int,
)
    requires
        0 <= i < keys.len(),
        store.defines(keys[i], variable),
        forall|j: int| 0 <= j < i ==> store.has_scope(#[trigger] keys[j]) && !store.defines(
            keys[j],
            variable,
        ),
    ensures
        store.search(keys, variable) == Some(store.variables[keys[i]][variable]),
    decreases i,
{
    if i > 0 {
        assert(store.has_scope(keys[0]) && !store.defines(keys[0], variable));
        let rest = keys.drop_first();
        assert forall|j: int| 0 <= j < i - 1 implies store.has_scope(#[trigger] rest[j])
            && !store.defines(rest[j], variable) by {
            assert(rest[j] == keys[j + 1]);
        }
        lemma_search_stops_at_first_definition(store, rest, variable, i - 1);
    }
}

/// The search through fallback keys finds nothing where it reaches, at
/// position `i`, a key without any scope before any key that defines the
/// variable.
pub proof fn lemma_search_aborts_at_gap<V>(
    store: Scopes<V>,
    keys: Seq<u64>,
    variable: Seq<char>,
    i: int,
)
    requires
        0 <= i < keys.len(),
        !store.has_scope(keys[i]),
        forall|j: int| 0 <= j < i ==> !store.defines(#[trigger] keys[j], variable),
    ensures
        store.search(keys, variable) is None,
    decreases i,
{
    if i > 0 {
        assert(!store.defines(keys[0], variable));
        if store.has_scope(keys[0]) {
            let rest = keys.drop_first();
            assert forall|j: int| 0 <= j < i - 1 implies !store.defines(
                #[trigger] rest[j],
                variable,
            ) by {
                assert(rest[j] == keys[j + 1]);
            }
            lemma_search_aborts_at_gap(store, rest, variable, i - 1);
        }
    }
}

/// What the search through fallback keys gives, said without recursion: it
/// finds a suggestion exactly where some key defines the variable and every
/// key before it has a scope that lacks it, and then it finds that key's
/// suggestion.
pub proof fn lemma_search_result<V>(store: Scopes<V>, keys: Seq<u64>, variable: Seq<char>)
    ensures
        match store.search(keys, variable) {
            Some(value) => exists|i: int|
                {
                    &&& 0 <= i < keys.len()
                    &&& store.defines(#[trigger] keys[i], variable)
                    &&& value == store.variables[keys[i]][variable]
                    &&& forall|j: int|
                        0 <= j < i ==> store.has_scope(#[trigger] keys[j]) && !store.defines(
                            keys[j],
                            variable,
                        )
                },
            None => forall|i: int|
                0 <= i < keys.len() && store.defines(#[trigger] keys[i], variable) ==> exists|
                    j: int,
                |
                    0 <= j < i && !store.has_scope(#[trigger] keys[j]),
        },
    decreases keys.len(),
{
    if keys.len() == 0 {
    } else if !store.has_scope(keys[0]) {
        assert forall|i: int|
            0 <= i < keys.len() && store.defines(#[trigger] keys[i], variable) implies exists|
            j: int,
        |
            0 <= j < i && !store.has_scope(#[trigger] keys[j]) by {
            assert(i != 0);
            assert(!store.has_scope(keys[0]));
        }
    } else if store.defines(keys[0], variable) {
        assert(store.defines(keys[0], variable));
    } else {
        let rest = keys.drop_first();
        lemma_search_result(store, rest, variable);
        match store.search(rest, variable) {
            Some(value) => {
                let i = choose|i: int|
                    {
                        &&& 0 <= i < rest.len()
                        &&& store.defines(#[trigger] rest[i], variable)
                        &&& value == store.variables[rest[i]][variable]
                        &&& forall|j: int|
                            0 <= j < i ==> store.has_scope(#[trigger] rest[j]) && !store.defines(
                                rest[j],
                                variable,
                            )
                    };
                assert(keys[i + 1] == rest[i]);
                assert forall|j: int| 0 <= j < i + 1 implies store.has_scope(#[trigger] keys[j])
                    && !store.defines(keys[j], variable) by {
                    if j > 0 {
                        assert(keys[j] == rest[j - 1]);
                    }
                }
                assert(store.defines(keys[i + 1], variable));
            },
            None => {
                assert forall|i: int|
                    0 <= i < keys.len() && store.defines(
                        #[trigger] keys[i],
                        variable,
                    ) implies exists|j: int| 0 <= j < i && !store.has_scope(#[trigger] keys[j]) by {
                    assert(i > 0);
                    assert(rest[i - 1] == keys[i]);
                    let j = choose|j: int| 0 <= j < i - 1 && !store.has_scope(#[trigger] rest[j]);
                    assert(keys[j + 1] == rest[j]);
                    assert(!store.has_scope(keys[j + 1]));
                }
            },
        }
    }
}

/// The search depends on the scopes alone, not on the declared dependencies.
pub proof fn lemma_search_same_scopes<V>(
    one: Scopes<V>,
    other: Scopes<V>,
    keys: Seq<u64>,
    variable: Seq<char>,
)
    requires
        one.variables == other.variables,
    ensures
        one.search(keys, variable) == other.search(keys, variable),
    decreases keys.len(),
{
    if keys.len() > 0 {
        lemma_search_same_scopes(one, other, keys.drop_first(), variable);
    }
}

/// Appending `dependency` to `keys` changes nothing in the search where
/// `dependency` occurs in `keys` already, or has a scope that lacks the
/// variable.
pub proof fn lemma_search_ignores_repeat<V>(
    store: Scopes<V>,
    keys: Seq<u64>,
    variable: Seq<char>,
    dependency: u64,
)
    requires
        keys.contains(dependency) || (store.has_scope(dependency) && !store.defines(
            dependency,
            variable,
        )),
    ensures
        store.search(keys.push(dependency), variable) == store.search(keys, variable),
    decreases keys.len(),
{
    let longer = keys.push(dependency);
    if keys.len() == 0 {
        assert(longer[0] == dependency);
        assert(longer.drop_first() =~= Seq::<u64>::empty());
        assert(store.search(longer.drop_first(), variable) is None);
    } else {
        assert(longer[0] == keys[0]);
        assert(longer.drop_first() =~= keys.drop_first().push(dependency));
        if store.has_scope(keys[0]) && !store.defines(keys[0], variable) {
            if !(store.has_scope(dependency) && !store.defines(dependency, variable)) {
                let i = choose|i: int| 0 <= i < keys.len() && keys[i] == dependency;
                assert(i > 0);
                assert(keys.drop_first()[i - 1] == dependency);
            }
            lemma_search_ignores_repeat(store, keys.drop_first(), variable, dependency);
        }
    }
}

/// A store has a scope for a key exactly where one of the insertions that
/// built it filed a suggestion under that key.
pub proof fn lemma_scopes_come_from_suggestions<V>(insertions: Seq<Insertion<V>>, key: u64)
    ensures
        Scopes::built(insertions).has_scope(key) <==> exists|i: int|
            0 <= i < insertions.len() && (#[trigger] insertions[i]) is Filed
                && insertions[i]->Filed_key == key,
    decreases insertions.len(),
{
    if insertions.len() > 0 {
        let earlier = insertions.drop_last();
        lemma_scopes_come_from_suggestions(earlier, key);
        let last = insertions.last();
        if Scopes::built(insertions).has_scope(key) {
            if Scopes::built(earlier).has_scope(key) {
                let i = choose|i: int|
                    0 <= i < earlier.len() && (#[trigger] earlier[i]) is Filed
                        && earlier[i]->Filed_key == key;
                assert(insertions[i] == earlier[i]);
            } else {
                assert(insertions[insertions.len() - 1] == last);
                assert(last is Filed && last->Filed_key == key);
            }
        }
        if exists|i: int|
            0 <= i < insertions.len() && (#[trigger] insertions[i]) is Filed
                && insertions[i]->Filed_key == key {
            let i = choose|i: int|
                0 <= i < insertions.len() && (#[trigger] insertions[i]) is Filed
                    && insertions[i]->Filed_key == key;
            if i < earlier.len() {
                assert(earlier[i] == insertions[i]);
            }
        }
    }
}

/// A suggestion is found under its own tag set right after it was filed,
/// whatever the store held before and whatever the tag set depends on.
pub proof fn law_filed_suggestion_is_found<V>(
    store: Scopes<V>,
    key: u64,
    variable: Seq<char>,
    value: V,
)
    ensures
        store.with_suggestion(key, variable, value).resolve(key, variable) == Some(value),
{
}

/// Last write wins: filing a second suggestion for the same variable under
/// the same tag set leaves the store as if only the second had been filed,
/// so every later lookup sees the second.
pub proof fn law_last_write_wins<V>(
    store: Scopes<V>,
    key: u64,
    variable: Seq<char>,
    first: V,
    second: V,
)
    ensures
        store.with_suggestion(key, variable, first).with_suggestion(key, variable, second)
            == store.with_suggestion(key, variable, second),
        store.with_suggestion(key, variable, first).with_suggestion(
            key,
            variable,
            second,
        ).resolve(key, variable) == Some(second),
{
    let once = store.with_suggestion(key, variable, second);
    let twice = store.with_suggestion(key, variable, first).with_suggestion(key, variable, second);
    assert(twice.variables[key] =~= once.variables[key]);
    assert(twice.variables =~= once.variables);
}

/// Filing a suggestion changes no other entry: every other variable of the
/// same tag set, and every variable of another tag set, is defined as before
/// and with the same suggestion, and every fallback list stays as it was.
pub proof fn law_filing_leaves_other_entries<V>(
    store: Scopes<V>,
    key: u64,
    variable: Seq<char>,
    value: V,
    other_key: u64,
    other_variable: Seq<char>,
)
    requires
        other_key != key || other_variable != variable,
    ensures
        store.with_suggestion(key, variable, value).defines(other_key, other_variable)
            == store.defines(other_key, other_variable),
        store.defines(other_key, other_variable) ==> store.with_suggestion(
            key,
            variable,
            value,
        ).variables[other_key][other_variable] == store.variables[other_key][other_variable],
        store.with_suggestion(key, variable, value).dependencies == store.dependencies,
{
}

/// Local precedence: a tag set's own suggestion for a variable is the one
/// found, whatever the tag set depends on and whatever those tag sets define.
pub proof fn law_local_precedence<V>(store: Scopes<V>, key: u64, variable: Seq<char>)
    requires
        store.defines(key, variable),
    ensures
        store.resolve(key, variable) == Some(store.variables[key][variable]),
{
}

/// Earliest dependency first: where a tag set has a scope that lacks the
/// variable, the lookup gives the suggestion of the first tag set on its
/// fallback list that defines the variable, provided that every tag set
/// before it on the list has a scope.
pub proof fn law_first_definition_wins<V>(
    store: Scopes<V>,
    key: u64,
    variable: Seq<char>,
    i: int,
)
    requires
        store.has_scope(key),
        !store.defines(key, variable),
        0 <= i < store.fallbacks(key).len(),
        store.defines(store.fallbacks(key)[i], variable),
        forall|j: int|
            0 <= j < i ==> store.has_scope(#[trigger] store.fallbacks(key)[j]) && !store.defines(
                store.fallbacks(key)[j],
                variable,
            ),
    ensures
        store.resolve(key, variable) == Some(
            store.variables[store.fallbacks(key)[i]][variable],
        ),
{
    lemma_search_stops_at_first_definition(store, store.fallbacks(key), variable, i);
}

/// Fallback order: a tag set with a scope that lacks the variable, and with
/// no dependency so far, is made to depend on `first` and then on `second`,
/// both of which define the variable. The lookup gives the suggestion of
/// `first`.
pub proof fn law_fallback_order<V>(
    store: Scopes<V>,
    key: u64,
    variable: Seq<char>,
    first: u64,
    second: u64,
)
    requires
        store.has_scope(key),
        !store.defines(key, variable),
        store.fallbacks(key).len() == 0,
        store.defines(first, variable),
        store.defines(second, variable),
    ensures
        store.with_dependency(key, first).with_dependency(key, second).resolve(key, variable)
            == Some(store.variables[first][variable]),
{
    let after = store.with_dependency(key, first).with_dependency(key, second);
    assert(after.fallbacks(key) =~= seq![first, second]);
    law_first_definition_wins(after, key, variable, 0);
}

/// A tag set under which no suggestion was ever filed resolves nothing,
/// whatever it depends on.
pub proof fn law_no_scope_no_result<V>(store: Scopes<V>, key: u64, variable: Seq<char>)
    requires
        !store.has_scope(key),
    ensures
        store.resolve(key, variable) is None,
{
}

/// Unknown tag set: in a store built by any sequence of insertions, a tag
/// set under whose key none of them filed a suggestion resolves nothing.
pub proof fn law_unused_tag_set_resolves_nothing<V>(
    insertions: Seq<Insertion<V>>,
    key: u64,
    variable: Seq<char>,
)
    requires
        forall|i: int|
            0 <= i < insertions.len() && (#[trigger] insertions[i]) is Filed
                ==> insertions[i]->Filed_key != key,
    ensures
        Scopes::built(insertions).resolve(key, variable) is None,
{
    lemma_scopes_come_from_suggestions(insertions, key);
}

/// Abort on gap: where a tag set has no suggestion of its own for the
/// variable, and its fallback list reaches a tag set without any scope
/// before one that defines the variable, the lookup gives nothing, whatever
/// the tag sets further down the list define.
pub proof fn law_gap_aborts<V>(store: Scopes<V>, key: u64, variable: Seq<char>, i: int)
    requires
        !store.defines(key, variable),
        0 <= i < store.fallbacks(key).len(),
        !store.has_scope(store.fallbacks(key)[i]),
        forall|j: int| 0 <= j < i ==> !store.defines(#[trigger] store.fallbacks(key)[j], variable),
    ensures
        store.resolve(key, variable) is None,
{
    lemma_search_aborts_at_gap(store, store.fallbacks(key), variable, i);
}

/// Abort on gap, by insertions: a tag set without a suggestion of its own
/// for the variable, and with no dependency so far, is made to depend on
/// `gap`, which has no scope, and then on `second`, which defines the
/// variable. The lookup gives nothing, not the suggestion of `second`.
pub proof fn law_gap_hides_later_dependency<V>(
    store: Scopes<V>,
    key: u64,
    variable: Seq<char>,
    gap: u64,
    second: u64,
)
    requires
        !store.defines(key, variable),
        store.fallbacks(key).len() == 0,
        !store.has_scope(gap),
        store.defines(second, variable),
    ensures
        store.with_dependency(key, gap).with_dependency(key, second).resolve(key, variable)
            is None,
{
    let after = store.with_dependency(key, gap).with_dependency(key, second);
    assert(after.fallbacks(key) =~= seq![gap, second]);
    law_gap_aborts(after, key, variable, 0);
}

/// Most specific result: a suggestion that a lookup gives is the tag set's
/// own, or else that of the earliest tag set on its fallback list that
/// defines the variable, every tag set before that one having a scope that
/// lacks it. A lookup gives nothing only where the tag set has no suggestion
/// of its own for the variable and, if it has a scope at all, every tag set
/// on its fallback list that defines the variable stands behind one without
/// a scope.
pub proof fn law_result_is_most_specific<V>(store: Scopes<V>, key: u64, variable: Seq<char>)
    ensures
        match store.resolve(key, variable) {
            Some(value) => {
                ||| store.defines(key, variable) && value == store.variables[key][variable]
                ||| {
                    &&& store.has_scope(key)
                    &&& !store.defines(key, variable)
                    &&& exists|i: int|
                        {
                            &&& 0 <= i < store.fallbacks(key).len()
                            &&& store.defines(#[trigger] store.fallbacks(key)[i], variable)
                            &&& value == store.variables[store.fallbacks(key)[i]][variable]
                            &&& forall|j: int|
                                0 <= j < i ==> store.has_scope(#[trigger] store.fallbacks(key)[j])
                                    && !store.defines(store.fallbacks(key)[j], variable)
                        }
                }
            },
            None => {
                &&& !store.defines(key, variable)
                &&& store.has_scope(key) ==> forall|i: int|
                    0 <= i < store.fallbacks(key).len() && store.defines(
                        #[trigger] store.fallbacks(key)[i],
                        variable,
                    ) ==> exists|j: int|
                        0 <= j < i && !store.has_scope(#[trigger] store.fallbacks(key)[j])
            },
        },
{
    if store.has_scope(key) && !store.defines(key, variable) {
        lemma_search_result(store, store.fallbacks(key), variable);
    }
}

/// Declaring a dependency changes no scope, and no lookup under a tag set
/// that has its own suggestion for the variable.
pub proof fn law_dependency_leaves_scopes<V>(
    store: Scopes<V>,
    key: u64,
    dependency: u64,
    any_key: u64,
    variable: Seq<char>,
)
    ensures
        store.with_dependency(key, dependency).variables == store.variables,
        store.defines(any_key, variable) ==> store.with_dependency(key, dependency).resolve(
            any_key,
            variable,
        ) == store.resolve(any_key, variable),
{
}

/// Declaring a dependency a second time changes no lookup: the repeated
/// entry on the fallback list is only reached where the first one neither
/// ended the search nor found anything.
pub proof fn law_repeated_dependency_is_harmless<V>(
    store: Scopes<V>,
    key: u64,
    dependency: u64,
    any_key: u64,
    variable: Seq<char>,
)
    requires
        store.fallbacks(key).contains(dependency),
    ensures
        store.with_dependency(key, dependency).resolve(any_key, variable) == store.resolve(
            any_key,
            variable,
        ),
{
    let after = store.with_dependency(key, dependency);
    if any_key == key {
        assert(after.fallbacks(key) == store.fallbacks(key).push(dependency));
        lemma_search_ignores_repeat(store, store.fallbacks(key), variable, dependency);
        lemma_search_same_scopes(store, after, after.fallbacks(key), variable);
        lemma_search_same_scopes(store, after, store.fallbacks(key), variable);
    } else {
        assert(after.fallbacks(any_key) == store.fallbacks(any_key));
        lemma_search_same_scopes(store, after, store.fallbacks(any_key), variable);
    }
}

/// Scopes and dependencies are independent: filing a suggestion and
/// declaring a dependency give the same store in either order.
pub proof fn law_filing_and_declaring_commute<V>(
    store: Scopes<V>,
    key: u64,
    variable: Seq<char>,
    value: V,
    dependent: u64,
    dependency: u64,
)
    ensures
        store.with_suggestion(key, variable, value).with_dependency(dependent, dependency)
            == store.with_dependency(dependent, dependency).with_suggestion(key, variable, value),
{
}

} // verus!
