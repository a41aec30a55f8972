use polyfill_pages::catalog::{assemble, sorted_alias_groups, RawCatalog, RenderEntry};

fn names(list: &[&str]) -> Vec<String> {
    list.iter().map(|s| s.to_string()).collect()
}

fn group(name: &str, members: &[&str]) -> (String, Vec<String>) {
    (name.to_string(), names(members))
}

fn labels(entries: &[RenderEntry]) -> Vec<String> {
    entries
        .iter()
        .map(|entry| match entry {
            RenderEntry::Alias { name, .. } => format!("alias:{}", name),
            RenderEntry::Feature { name } => format!("feature:{}", name),
        })
        .collect()
}

#[test]
fn aliases_come_first_in_the_order_of_their_names() {
    let raw = RawCatalog {
        features: names(&["fetch", "Array.from", "Promise"]),
        alias_members: vec![
            group("es6", &["Promise", "Array.from"]),
            group("default", &["fetch"]),
            group("es5", &[]),
        ],
    };
    let model = assemble(raw);
    assert_eq!(
        labels(&model.entries),
        vec![
            "alias:default",
            "alias:es5",
            "alias:es6",
            "feature:fetch",
            "feature:Array.from",
            "feature:Promise"
        ]
    );
}

#[test]
fn members_keep_their_order() {
    let raw = RawCatalog {
        features: vec![],
        alias_members: vec![group("es6", &["zeta", "alpha", "mid"])],
    };
    let model = assemble(raw);
    assert_eq!(model.entries.len(), 1);
    match &model.entries[0] {
        RenderEntry::Alias { name, members } => {
            assert_eq!(name, "es6");
            assert_eq!(members, &names(&["zeta", "alpha", "mid"]));
        }
        RenderEntry::Feature { .. } => panic!("an alias was expected"),
    }
}

#[test]
fn names_are_ordered_by_code_point() {
    let raw = RawCatalog {
        features: vec![],
        alias_members: vec![
            group("es6", &[]),
            group("Zebra", &[]),
            group("es", &[]),
            group("\u{e9}t\u{e9}", &[]),
            group("es2015", &[]),
            group("~tilde", &[]),
            group("_under", &[]),
        ],
    };
    let model = assemble(raw);
    assert_eq!(
        labels(&model.entries),
        vec![
            "alias:Zebra",
            "alias:_under",
            "alias:es",
            "alias:es2015",
            "alias:es6",
            "alias:~tilde",
            "alias:\u{e9}t\u{e9}"
        ]
    );
}

#[test]
fn a_feature_held_by_an_alias_is_listed_as_well() {
    let raw = RawCatalog {
        features: names(&["fetch"]),
        alias_members: vec![group("default", &["fetch"])],
    };
    let model = assemble(raw);
    assert_eq!(labels(&model.entries), vec!["alias:default", "feature:fetch"]);
}

#[test]
fn a_feature_named_like_an_alias_is_listed_as_well() {
    let raw = RawCatalog {
        features: names(&["default"]),
        alias_members: vec![group("default", &["fetch"])],
    };
    let model = assemble(raw);
    assert_eq!(labels(&model.entries), vec!["alias:default", "feature:default"]);
}

#[test]
fn every_name_is_listed_once() {
    let raw = RawCatalog {
        features: names(&["a", "b", "c", "d"]),
        alias_members: vec![group("y", &["a"]), group("x", &["b", "c"]), group("z", &[])],
    };
    let model = assemble(raw);
    let listed = labels(&model.entries);
    assert_eq!(listed.len(), 7);
    for name in ["alias:x", "alias:y", "alias:z", "feature:a", "feature:b", "feature:c", "feature:d"] {
        assert_eq!(listed.iter().filter(|l| l.as_str() == name).count(), 1);
    }
}

#[test]
fn an_empty_catalog_gives_an_empty_list() {
    let model = assemble(RawCatalog { features: vec![], alias_members: vec![] });
    assert!(model.entries.is_empty());
}

#[test]
fn a_later_group_replaces_an_earlier_one_of_the_same_name() {
    let raw = RawCatalog {
        features: vec![],
        alias_members: vec![
            group("b", &["old"]),
            group("a", &["one"]),
            group("b", &["new", "newer"]),
        ],
    };
    let model = assemble(raw);
    assert_eq!(labels(&model.entries), vec!["alias:a", "alias:b"]);
    match &model.entries[1] {
        RenderEntry::Alias { members, .. } => assert_eq!(members, &names(&["new", "newer"])),
        RenderEntry::Feature { .. } => panic!("an alias was expected"),
    }
}

#[test]
fn the_order_in_which_groups_are_given_leaves_no_trace() {
    let one = sorted_alias_groups(vec![group("b", &["2"]), group("c", &["3"]), group("a", &["1"])]);
    let other = sorted_alias_groups(vec![group("c", &["3"]), group("a", &["1"]), group("b", &["2"])]);
    assert_eq!(one, other);
    assert_eq!(one, vec![group("a", &["1"]), group("b", &["2"]), group("c", &["3"])]);
}

#[test]
fn sorting_changes_an_unsorted_list() {
    let given = vec![group("b", &[]), group("a", &[])];
    let sorted = sorted_alias_groups(given.clone());
    assert_ne!(sorted, given);
}
