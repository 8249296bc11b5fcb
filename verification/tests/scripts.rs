use rps::scripts::{
    entry_precedes, label_of, resolve_selection, selection_labels, sort_scripts, text_precedes,
    Script,
};

fn script(name: &str, command: &str) -> Script {
    Script::new(name.to_string(), command.to_string())
}

fn names(list: &[Script]) -> Vec<String> {
    list.iter().map(|s| s.name.clone()).collect()
}

#[test]
fn text_order_is_lexicographic() {
    assert!(text_precedes("", ""));
    assert!(text_precedes("", "a"));
    assert!(!text_precedes("a", ""));
    assert!(text_precedes("a", "a"));
    assert!(text_precedes("a", "b"));
    assert!(!text_precedes("b", "a"));
    assert!(text_precedes("build", "build:prod"));
    assert!(!text_precedes("build:prod", "build"));
    assert!(text_precedes("B", "a"));
    assert!(text_precedes("test", "tést"));
}

#[test]
fn text_order_agrees_with_std() {
    let words = ["", "a", "A", "ab", "abc", "b", "build", "build:x", "é", "z", "zz", "日本"];
    for a in words {
        for b in words {
            assert_eq!(text_precedes(a, b), a <= b, "{:?} <= {:?}", a, b);
        }
    }
}

#[test]
fn entries_are_ordered_by_name_first() {
    assert!(entry_precedes(&script("a", "z"), &script("b", "a")));
    assert!(!entry_precedes(&script("b", "a"), &script("a", "z")));
    assert!(entry_precedes(&script("a", "x"), &script("a", "y")));
    assert!(!entry_precedes(&script("a", "y"), &script("a", "x")));
    assert!(entry_precedes(&script("a", "x"), &script("a", "x")));
}

#[test]
fn sorting_orders_by_name() {
    let sorted = sort_scripts(vec![
        script("test", "jest"),
        script("build", "webpack"),
        script("start", "node ."),
        script("lint", "eslint ."),
    ]);
    assert_eq!(names(&sorted), vec!["build", "lint", "start", "test"]);
    assert_eq!(sorted[0], script("build", "webpack"));
    assert_eq!(sorted[3], script("test", "jest"));
}

#[test]
fn sorting_keeps_every_script_once() {
    let given = vec![
        script("c", "3"),
        script("a", "1"),
        script("e", "5"),
        script("b", "2"),
        script("d", "4"),
    ];
    let sorted = sort_scripts(given.clone());
    assert_eq!(sorted.len(), given.len());
    for s in &given {
        assert_eq!(sorted.iter().filter(|t| *t == s).count(), 1);
    }
    for pair in sorted.windows(2) {
        assert!(pair[0].name < pair[1].name);
    }
}

#[test]
fn sorting_nothing_gives_nothing() {
    assert_eq!(sort_scripts(vec![]), Vec::<Script>::new());
    assert_eq!(sort_scripts(vec![script("only", "one")]), vec![script("only", "one")]);
}

#[test]
fn sorting_is_the_same_whatever_the_order_given() {
    let a = sort_scripts(vec![script("x", "1"), script("y", "2"), script("w", "3")]);
    let b = sort_scripts(vec![script("w", "3"), script("x", "1"), script("y", "2")]);
    let c = sort_scripts(vec![script("y", "2"), script("w", "3"), script("x", "1")]);
    assert_eq!(a, b);
    assert_eq!(b, c);
}

#[test]
fn sorting_agrees_with_std_on_names() {
    let raw = ["pre", "post", "a:b", "a", "Z", "é", "b2", "b10", "_x", "~"];
    let sorted = sort_scripts(raw.iter().map(|n| script(n, "cmd")).collect());
    let mut expected: Vec<String> = raw.iter().map(|n| n.to_string()).collect();
    expected.sort();
    assert_eq!(names(&sorted), expected);
}

#[test]
fn label_joins_name_and_command() {
    assert_eq!(label_of(&script("build", "webpack")), "build: webpack");
    assert_eq!(label_of(&script("", "")), ": ");
    assert_eq!(label_of(&script("a: b", "c")), "a: b: c");
}

#[test]
fn labels_follow_the_list() {
    let list = vec![script("build", "webpack"), script("test", "jest")];
    assert_eq!(
        selection_labels(&list),
        vec!["build: webpack".to_string(), "test: jest".to_string()]
    );
    assert_eq!(selection_labels(&vec![]), Vec::<String>::new());
}

#[test]
fn selection_resolves_to_the_script_name() {
    let list = vec![script("build", "webpack"), script("test", "jest")];
    assert_eq!(resolve_selection(&list, "test: jest"), Some("test".to_string()));
    assert_eq!(resolve_selection(&list, "build: webpack"), Some("build".to_string()));
}

#[test]
fn selection_that_is_no_label_resolves_to_nothing() {
    let list = vec![script("build", "webpack"), script("test", "jest")];
    assert_eq!(resolve_selection(&list, "test"), None);
    assert_eq!(resolve_selection(&list, "test: jest "), None);
    assert_eq!(resolve_selection(&list, ""), None);
    assert_eq!(resolve_selection(&vec![], "test: jest"), None);
}

#[test]
fn selection_with_two_readings_resolves_to_the_first() {
    let list = sort_scripts(vec![script("a: b", "c"), script("a", "b: c")]);
    assert_eq!(names(&list), vec!["a", "a: b"]);
    assert_eq!(resolve_selection(&list, "a: b: c"), Some("a".to_string()));
}

#[test]
fn unique_names_ascend_strictly_and_stay_unique() {
    let sorted = sort_scripts(vec![
        script("b", "same"),
        script("a", "same"),
        script("ab", "same"),
        script("", "same"),
    ]);
    assert_eq!(names(&sorted), vec!["", "a", "ab", "b"]);
    for pair in sorted.windows(2) {
        assert!(pair[0].name < pair[1].name);
    }
}
