use ecstasy::registry::{Registry, SourceKind};

fn names(ns: Vec<&str>) -> Vec<String> {
    ns.into_iter().map(|n| n.to_string()).collect()
}

#[test]
fn all_selects_every_collector_once_in_stable_order() {
    let reg = Registry::new();
    let (sel, unk) = reg.resolve(&names(vec!["all"]));
    assert_eq!(sel, vec![SourceKind::Konachan, SourceKind::Reddit]);
    assert!(unk.is_empty());
}

#[test]
fn all_is_matched_case_insensitively() {
    let reg = Registry::new();
    let (sel, unk) = reg.resolve(&names(vec!["ALL"]));
    assert_eq!(sel, vec![SourceKind::Konachan, SourceKind::Reddit]);
    assert!(unk.is_empty());
}

#[test]
fn a_known_name_selects_its_collector() {
    let reg = Registry::new();
    let (sel, unk) = reg.resolve(&names(vec!["konachan"]));
    assert_eq!(sel, vec![SourceKind::Konachan]);
    assert!(unk.is_empty());
}

#[test]
fn names_are_matched_case_insensitively() {
    let reg = Registry::new();
    let (sel, unk) = reg.resolve(&names(vec!["KonaChan", "REDDIT"]));
    assert_eq!(sel, vec![SourceKind::Konachan, SourceKind::Reddit]);
    assert!(unk.is_empty());
}

#[test]
fn an_unknown_name_selects_nothing_and_is_reported() {
    let reg = Registry::new();
    let (sel, unk) = reg.resolve(&names(vec!["tumblr"]));
    assert!(sel.is_empty());
    assert_eq!(unk, vec!["tumblr".to_string()]);
}

#[test]
fn unknown_names_do_not_disturb_known_ones() {
    let reg = Registry::new();
    let (sel, unk) = reg.resolve(&names(vec!["reddit", "nope", "konachan"]));
    assert_eq!(sel, vec![SourceKind::Reddit, SourceKind::Konachan]);
    assert_eq!(unk, vec!["nope".to_string()]);
}

#[test]
fn kind_identifiers_are_lowercase_and_distinct() {
    assert_eq!(SourceKind::Konachan.id(), "konachan");
    assert_eq!(SourceKind::Reddit.id(), "reddit");
}

#[test]
fn lookup_finds_the_registered_kind() {
    let reg = Registry::new();
    assert_eq!(reg.lookup("konachan"), Some(SourceKind::Konachan));
    assert_eq!(reg.lookup("Reddit"), Some(SourceKind::Reddit));
    assert_eq!(reg.lookup("gelbooru"), None);
}
