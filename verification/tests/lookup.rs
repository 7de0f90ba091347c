use variable_map::{Suggestion, VariableMap};

fn plain(text: &str) -> Suggestion<u8> {
    (text.to_string(), None)
}

#[test]
fn empty_store_finds_nothing() {
    let store: VariableMap<u8> = VariableMap::new();
    assert_eq!(store.get_suggestion("git, branch", "name"), None);
    assert_eq!(store.get_suggestion("", ""), None);
}

#[test]
fn filed_suggestion_is_found() {
    let mut store = VariableMap::new();
    store.insert_suggestion("git, branch", "name", plain("current branch"));
    assert_eq!(store.get_suggestion("git, branch", "name"), Some(&plain("current branch")));
}

#[test]
fn parser_configuration_comes_back_unchanged() {
    let mut store: VariableMap<Vec<String>> = VariableMap::new();
    let options = vec!["--multi".to_string(), "--column".to_string()];
    store.insert_suggestion("k8s", "pod", ("kubectl get pods".to_string(), Some(options.clone())));
    assert_eq!(
        store.get_suggestion("k8s", "pod"),
        Some(&("kubectl get pods".to_string(), Some(options)))
    );
}

#[test]
fn other_variable_of_same_tag_set_is_not_found() {
    let mut store = VariableMap::new();
    store.insert_suggestion("git, branch", "name", plain("current branch"));
    assert_eq!(store.get_suggestion("git, branch", "target"), None);
}

#[test]
fn variables_of_one_tag_set_are_kept_apart() {
    let mut store = VariableMap::new();
    store.insert_suggestion("git", "branch", plain("git branch"));
    store.insert_suggestion("git", "remote", plain("git remote"));
    assert_eq!(store.get_suggestion("git", "branch"), Some(&plain("git branch")));
    assert_eq!(store.get_suggestion("git", "remote"), Some(&plain("git remote")));
}

#[test]
fn later_suggestion_replaces_earlier() {
    let mut store = VariableMap::new();
    store.insert_suggestion("git, branch", "name", plain("first"));
    store.insert_suggestion("git, branch", "name", plain("second"));
    assert_eq!(store.get_suggestion("git, branch", "name"), Some(&plain("second")));
    store.insert_dependency("git, branch", "git");
    store.insert_suggestion("git", "name", plain("elsewhere"));
    assert_eq!(store.get_suggestion("git, branch", "name"), Some(&plain("second")));
}

#[test]
fn local_suggestion_precedes_dependency() {
    let mut store = VariableMap::new();
    store.insert_suggestion("base", "x", plain("from base"));
    store.insert_dependency("derived", "base");
    store.insert_suggestion("derived", "x", plain("from derived"));
    assert_eq!(store.get_suggestion("derived", "x"), Some(&plain("from derived")));
    assert_eq!(store.get_suggestion("base", "x"), Some(&plain("from base")));
}

#[test]
fn first_declared_dependency_wins() {
    let mut store = VariableMap::new();
    store.insert_suggestion("tags", "other", plain("local"));
    store.insert_suggestion("dep1", "x", plain("from dep1"));
    store.insert_suggestion("dep2", "x", plain("from dep2"));
    store.insert_dependency("tags", "dep1");
    store.insert_dependency("tags", "dep2");
    assert_eq!(store.get_suggestion("tags", "x"), Some(&plain("from dep1")));
}

#[test]
fn declaration_order_decides_not_filing_order() {
    let mut store = VariableMap::new();
    store.insert_suggestion("tags", "other", plain("local"));
    store.insert_dependency("tags", "dep2");
    store.insert_dependency("tags", "dep1");
    store.insert_suggestion("dep1", "x", plain("from dep1"));
    store.insert_suggestion("dep2", "x", plain("from dep2"));
    assert_eq!(store.get_suggestion("tags", "x"), Some(&plain("from dep2")));
}

#[test]
fn search_passes_dependency_that_lacks_the_variable() {
    let mut store = VariableMap::new();
    store.insert_suggestion("tags", "other", plain("local"));
    store.insert_suggestion("dep1", "y", plain("unrelated"));
    store.insert_suggestion("dep2", "x", plain("from dep2"));
    store.insert_dependency("tags", "dep1");
    store.insert_dependency("tags", "dep2");
    assert_eq!(store.get_suggestion("tags", "x"), Some(&plain("from dep2")));
    assert_eq!(store.get_suggestion("tags", "y"), Some(&plain("unrelated")));
    assert_eq!(store.get_suggestion("tags", "z"), None);
}

#[test]
fn unknown_tag_set_finds_nothing() {
    let mut store = VariableMap::new();
    store.insert_suggestion("known", "x", plain("value"));
    store.insert_dependency("known", "elsewhere");
    assert_eq!(store.get_suggestion("unknown-tags", "x"), None);
}

#[test]
fn tag_set_with_dependencies_only_finds_nothing() {
    let mut store = VariableMap::new();
    store.insert_suggestion("base", "x", plain("from base"));
    store.insert_dependency("derived", "base");
    assert_eq!(store.get_suggestion("derived", "x"), None);
    store.insert_suggestion("derived", "y", plain("local"));
    assert_eq!(store.get_suggestion("derived", "x"), Some(&plain("from base")));
}

#[test]
fn gap_in_dependencies_aborts_search() {
    let mut store = VariableMap::new();
    store.insert_suggestion("tags", "other", plain("local"));
    store.insert_suggestion("dep2", "x", plain("from dep2"));
    store.insert_dependency("tags", "dep1");
    store.insert_dependency("tags", "dep2");
    assert_eq!(store.get_suggestion("tags", "x"), None);
    assert_eq!(store.get_suggestion("tags", "other"), Some(&plain("local")));
}

#[test]
fn gap_behind_the_match_does_no_harm() {
    let mut store = VariableMap::new();
    store.insert_suggestion("tags", "other", plain("local"));
    store.insert_suggestion("dep1", "x", plain("from dep1"));
    store.insert_dependency("tags", "dep1");
    store.insert_dependency("tags", "missing");
    assert_eq!(store.get_suggestion("tags", "x"), Some(&plain("from dep1")));
    assert_eq!(store.get_suggestion("tags", "y"), None);
}

#[test]
fn dependencies_are_not_followed_further() {
    let mut store = VariableMap::new();
    store.insert_suggestion("a", "own", plain("a"));
    store.insert_suggestion("b", "own", plain("b"));
    store.insert_suggestion("c", "x", plain("from c"));
    store.insert_dependency("a", "b");
    store.insert_dependency("b", "c");
    assert_eq!(store.get_suggestion("b", "x"), Some(&plain("from c")));
    assert_eq!(store.get_suggestion("a", "x"), None);
}

#[test]
fn repeated_dependency_changes_no_lookup() {
    let mut store = VariableMap::new();
    store.insert_suggestion("tags", "other", plain("local"));
    store.insert_suggestion("dep1", "y", plain("from dep1"));
    store.insert_suggestion("dep2", "x", plain("from dep2"));
    store.insert_dependency("tags", "dep1");
    store.insert_dependency("tags", "dep1");
    store.insert_dependency("tags", "dep2");
    store.insert_dependency("tags", "dep1");
    assert_eq!(store.get_suggestion("tags", "x"), Some(&plain("from dep2")));
    assert_eq!(store.get_suggestion("tags", "y"), Some(&plain("from dep1")));
    assert_eq!(store.get_suggestion("tags", "z"), None);
}

#[test]
fn dependency_cycle_ends_the_lookup() {
    let mut store = VariableMap::new();
    store.insert_suggestion("a", "own", plain("a"));
    store.insert_suggestion("b", "x", plain("from b"));
    store.insert_dependency("a", "a");
    store.insert_dependency("a", "b");
    store.insert_dependency("b", "a");
    assert_eq!(store.get_suggestion("a", "x"), Some(&plain("from b")));
    assert_eq!(store.get_suggestion("a", "missing"), None);
    assert_eq!(store.get_suggestion("b", "own"), Some(&plain("a")));
}

#[test]
fn checkout_falls_back_to_branch() {
    let mut store: VariableMap<u8> = VariableMap::new();
    store.insert_suggestion("git, branch", "name", ("current branch".to_string(), None));
    store.insert_dependency("git, checkout", "git, branch");
    store.insert_suggestion("git, checkout", "target", ("branch to checkout".to_string(), None));
    assert_eq!(
        store.get_suggestion("git, checkout", "name"),
        Some(&("current branch".to_string(), None))
    );
    assert_eq!(
        store.get_suggestion("git, checkout", "target"),
        Some(&("branch to checkout".to_string(), None))
    );
    assert_eq!(store.get_suggestion("git, branch", "target"), None);
}

#[test]
fn empty_texts_are_ordinary_names() {
    let mut store = VariableMap::new();
    store.insert_suggestion("", "", plain("nameless"));
    store.insert_dependency("tags", "");
    store.insert_suggestion("tags", "x", plain("local"));
    assert_eq!(store.get_suggestion("", ""), Some(&plain("nameless")));
    assert_eq!(store.get_suggestion("tags", ""), Some(&plain("nameless")));
}
