use animate_core::classes::{contains_class, split_classes, ClassList, HtmlElementExt};

fn list(names: &[&str]) -> ClassList {
    ClassList { classes: names.iter().map(|s| s.to_string()).collect() }
}

#[test]
fn splits_on_runs_of_spaces() {
    assert_eq!(split_classes("a b  c"), vec!["a", "b", "c"]);
    assert_eq!(split_classes("  leading trailing  "), vec!["leading", "trailing"]);
    assert_eq!(split_classes(""), Vec::<String>::new());
    assert_eq!(split_classes("   "), Vec::<String>::new());
    assert_eq!(split_classes("one"), vec!["one"]);
}

#[test]
fn adds_only_the_classes_not_already_present() {
    let mut cl = list(&["kept", "shared"]);
    let added = cl.add_unique_classes("shared fresh");
    assert_eq!(added, vec!["fresh"]);
    assert_eq!(cl.classes, vec!["kept", "shared", "fresh"]);
}

#[test]
fn a_repeated_token_is_added_once() {
    let mut cl = list(&[]);
    let added = cl.add_unique_classes("twice twice");
    assert_eq!(added, vec!["twice"]);
    assert_eq!(cl.classes, vec!["twice"]);
}

#[test]
fn removes_exactly_the_named_classes() {
    let mut cl = list(&["a", "b", "c", "b"]);
    cl.remove_classes(&vec!["b".to_string()]);
    assert_eq!(cl.classes, vec!["a", "c"]);
}

#[test]
fn removing_an_absent_class_changes_nothing() {
    let mut cl = list(&["a"]);
    cl.remove_classes(&vec!["zzz".to_string()]);
    assert_eq!(cl.classes, vec!["a"]);
}

#[test]
fn membership_is_by_characters() {
    let v = vec!["alpha".to_string(), "beta".to_string()];
    assert!(contains_class(&v, &"beta".to_string()));
    assert!(!contains_class(&v, &"bet".to_string()));
}
