use punter::links::{FileMap, LinkSpec};

fn simple(s: &str) -> LinkSpec {
    LinkSpec::Simple(s.to_string())
}

#[test]
fn new_map_is_empty() {
    let map = FileMap::new();
    assert_eq!(map.len(), 0);
    assert_eq!(map.get("vimrc"), None);
}

#[test]
fn insert_then_get() {
    let mut map = FileMap::new();
    map.insert("vimrc".to_string(), simple(".vimrc"));
    map.insert("bashrc".to_string(), simple(".bashrc"));
    assert_eq!(map.len(), 2);
    assert_eq!(map.get("vimrc"), Some(&simple(".vimrc")));
    assert_eq!(map.get("bashrc"), Some(&simple(".bashrc")));
    assert_eq!(map.get("zshrc"), None);
}

#[test]
fn insert_replaces_what_stood_under_the_name() {
    let mut map = FileMap::new();
    map.insert("vimrc".to_string(), simple(".vimrc"));
    map.insert("bashrc".to_string(), simple(".bashrc"));
    map.insert("vimrc".to_string(), simple(".config/vim/vimrc"));
    assert_eq!(map.len(), 2);
    assert_eq!(map.get("vimrc"), Some(&simple(".config/vim/vimrc")));
    assert_eq!(map.get("bashrc"), Some(&simple(".bashrc")));
}

#[test]
fn with_builds_the_same_mapping_as_insert() {
    let built = FileMap::new()
        .with("a".to_string(), simple("1"))
        .with("b".to_string(), simple("2"))
        .with("a".to_string(), simple("3"));
    assert_eq!(built.len(), 2);
    assert_eq!(built.get("a"), Some(&simple("3")));
    assert_eq!(built.get("b"), Some(&simple("2")));
}

#[test]
fn names_are_told_apart_exactly() {
    let map = FileMap::new().with("vimrc".to_string(), simple(".vimrc"));
    assert_eq!(map.get("vimr"), None);
    assert_eq!(map.get("vimrcc"), None);
    assert_eq!(map.get("Vimrc"), None);
    assert_eq!(map.get(""), None);
}

#[test]
fn clone_keeps_every_entry() {
    let map = FileMap::new()
        .with("a".to_string(), simple("1"))
        .with("b".to_string(), simple("2"));
    let copy = map.clone();
    assert_eq!(copy.len(), 2);
    assert_eq!(copy.get("a"), Some(&simple("1")));
    assert_eq!(copy.get("b"), Some(&simple("2")));
    assert_eq!(map.len(), 2);
}

#[test]
fn link_spec_clone_is_equal() {
    let spec = simple(".vimrc");
    assert_eq!(spec.clone(), spec);
}
