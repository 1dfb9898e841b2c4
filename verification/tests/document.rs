use nmos_core::document::{Document, Field};

#[test]
fn a_new_document_is_empty() {
    let document = Document::new();
    assert_eq!(document.len(), 0);
    assert_eq!(document.get("id"), None);
    assert!(!document.contains_key("id"));
    assert!(document.fields().is_empty());
}

#[test]
fn insert_adds_or_replaces() {
    let mut document = Document::new();
    document.insert("a".to_string(), "1".to_string());
    document.insert("b".to_string(), "2".to_string());
    assert_eq!(document.len(), 2);
    document.insert("a".to_string(), "3".to_string());
    assert_eq!(document.len(), 2);
    assert_eq!(document.get("a"), Some(&"3".to_string()));
    assert_eq!(document.get("b"), Some(&"2".to_string()));
    assert!(document.contains_key("b"));
    assert!(!document.contains_key("c"));
    assert_eq!(
        document.fields(),
        &vec![
            Field { name: "a".to_string(), value: "3".to_string() },
            Field { name: "b".to_string(), value: "2".to_string() },
        ]
    );
}

#[test]
fn names_are_compared_exactly() {
    let mut document = Document::new();
    document.insert("label".to_string(), "x".to_string());
    assert_eq!(document.get("Label"), None);
    assert_eq!(document.get("label "), None);
    assert_eq!(document.get(""), None);
}

#[test]
fn a_clone_holds_the_same_fields() {
    let mut document = Document::new();
    document.insert("a".to_string(), "1".to_string());
    document.insert("b".to_string(), "2".to_string());
    let copy = document.clone();
    assert_eq!(copy, document);
    document.insert("a".to_string(), "9".to_string());
    assert_eq!(copy.get("a"), Some(&"1".to_string()));
}

#[test]
fn documents_are_equal_whatever_the_order() {
    let mut a = Document::new();
    a.insert("x".to_string(), "1".to_string());
    a.insert("y".to_string(), "2".to_string());
    let mut b = Document::new();
    b.insert("y".to_string(), "2".to_string());
    b.insert("x".to_string(), "1".to_string());
    assert_eq!(a, b);
    b.insert("x".to_string(), "3".to_string());
    assert_ne!(a, b);
    b.insert("x".to_string(), "1".to_string());
    b.insert("z".to_string(), "1".to_string());
    assert_ne!(a, b);
    assert_ne!(b, a);
    let mut c = Document::new();
    c.insert("x".to_string(), "1".to_string());
    c.insert("w".to_string(), "2".to_string());
    assert_ne!(a, c);
}

#[test]
fn remove_takes_a_field_out() {
    let mut document = Document::new();
    document.insert("a".to_string(), "1".to_string());
    document.insert("b".to_string(), "2".to_string());
    document.insert("c".to_string(), "3".to_string());
    assert_eq!(document.remove("b"), Some("2".to_string()));
    assert_eq!(document.remove("b"), None);
    assert_eq!(document.len(), 2);
    assert_eq!(document.get("a"), Some(&"1".to_string()));
    assert_eq!(document.get("c"), Some(&"3".to_string()));
}
