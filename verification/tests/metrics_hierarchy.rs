use threescalers::response::MetricsHierarchy;

#[test]
fn metrics_hierarchy_remove() {
    let mut hierarchy = MetricsHierarchy::new();

    hierarchy.insert(
        "parent1".to_owned(),
        vec![String::from("child1"), String::from("child2")],
    );
    hierarchy.insert("parent2".to_owned(), vec![String::from("child3")]);

    hierarchy.remove("parent1");

    let mut expected_hierarchy = MetricsHierarchy::new();

    expected_hierarchy.insert("parent2".to_owned(), vec![String::from("child3")]);

    assert_eq!(hierarchy, expected_hierarchy);
}

#[test]
fn metrics_hierarchy_parent_of() {
    let a_parent = "a_parent";
    let mut hierarchy = MetricsHierarchy::new();

    hierarchy.insert(
        a_parent.to_owned(),
        vec![String::from("child1"), String::from("child2")],
    );
    hierarchy.insert("parent2".to_owned(), vec![String::from("child3")]);

    assert_eq!(hierarchy.parent_of("child2"), Some(a_parent));
    assert_eq!(hierarchy.parent_of("child3"), Some("parent2"));
    assert_eq!(hierarchy.parent_of("nonchild"), None);
    assert_eq!(hierarchy.parent_of(a_parent), None);
}
