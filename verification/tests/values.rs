use cloud_waiter::values::{AttributeValue, Item};

fn text(s: &str) -> AttributeValue {
    AttributeValue::S(s.to_string())
}

#[test]
fn new_item_is_empty() {
    let item = Item::new();
    assert!(item.entries.is_empty());
    assert_eq!(item.get("anything"), None);
}

#[test]
fn stored_value_is_found() {
    let item = Item::new().item("a", text("1")).item("b", text("2"));
    assert_eq!(item.get("a"), Some(&text("1")));
    assert_eq!(item.get("b"), Some(&text("2")));
    assert_eq!(item.get("c"), None);
    assert_eq!(item.entries.len(), 2);
}

#[test]
fn storing_under_a_taken_name_replaces() {
    let item = Item::new().item("a", text("1")).item("b", text("2")).item("a", text("3"));
    assert_eq!(
        item.entries,
        vec![("a".to_string(), text("3")), ("b".to_string(), text("2"))]
    );
    assert_eq!(item.get("a"), Some(&text("3")));
}

#[test]
fn get_finds_the_first_entry_of_a_name() {
    let item = Item {
        entries: vec![
            ("a".to_string(), text("first")),
            ("a".to_string(), text("second")),
        ],
    };
    assert_eq!(item.get("a"), Some(&text("first")));
}

#[test]
fn names_are_compared_exactly() {
    let item = Item::new().item("Age", text("1"));
    assert_eq!(item.get("age"), None);
    assert_eq!(item.get("Age "), None);
    assert_eq!(item.get(""), None);
}

#[test]
fn storing_keeps_the_names_distinct() {
    let mut item = Item::new();
    for name in ["a", "b", "a", "c", "b", "a"] {
        item = item.item(name, text(name));
    }
    let names: Vec<&str> = item.entries.iter().map(|(name, _)| name.as_str()).collect();
    assert_eq!(names, vec!["a", "b", "c"]);
}

#[test]
fn storing_leaves_other_names_alone() {
    let item = Item::new().item("a", text("1")).item("b", text("2"));
    let item = item.item("c", AttributeValue::Bool(true));
    assert_eq!(item.get("a"), Some(&text("1")));
    assert_eq!(item.get("b"), Some(&text("2")));
    assert_eq!(item.get("c"), Some(&AttributeValue::Bool(true)));
}
