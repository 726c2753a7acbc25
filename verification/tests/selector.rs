use style_rules::selector::{Selector, SelectorKind, SelectorPart};
use style_rules::value::Value;

#[test]
fn combine_basic() {
    let first = Selector::from_parts(&[SelectorPart::new_with_value(
        SelectorKind::Type,
        Value::from("type"),
    )]);

    let second = Selector::from_parts(&[SelectorPart::new_with_value(
        SelectorKind::Class,
        Value::from("class"),
    )]);

    let combined = Selector::combine(&first, &second);
    assert_eq!(
        combined,
        Selector::from_parts(&[
            SelectorPart::new_with_value(SelectorKind::Type, Value::from("type")),
            SelectorPart::new_with_value(SelectorKind::Class, Value::from("class")),
        ])
    );
}

#[test]
fn combine_nested() {
    let first = Selector::from_parts(&[SelectorPart::new_with_value(
        SelectorKind::Type,
        Value::from("type"),
    )]);

    let second = Selector::from_parts(&[
        SelectorPart::new_with_empty(SelectorKind::RelativeParent),
        SelectorPart::new_with_value(SelectorKind::Class, Value::from("class")),
    ]);

    let combined = Selector::combine(&second, &first);
    assert_eq!(
        combined,
        Selector::from_parts(&[
            SelectorPart::new_with_value(SelectorKind::Type, Value::from("type")),
            SelectorPart::new_with_value(SelectorKind::Class, Value::from("class")),
        ])
    );
}

#[test]
fn combine_with_empty_selectors() {
    let some = Selector::from_parts(&[
        SelectorPart::new_with_empty(SelectorKind::RelativeParent),
        SelectorPart::new_with_value(SelectorKind::Class, Value::from("class")),
    ]);
    let none = Selector::new();
    assert_eq!(Selector::combine(&none, &some), some);
    assert_eq!(
        Selector::combine(&some, &none),
        Selector::from_parts(&[SelectorPart::new_with_value(
            SelectorKind::Class,
            Value::from("class")
        )])
    );
}

#[test]
fn combine_replaces_every_marker() {
    let parent = Selector::from_parts(&[
        SelectorPart::new_with_value(SelectorKind::Type, Value::from("a")),
        SelectorPart::new_with_value(SelectorKind::Class, Value::from("b")),
    ]);
    let child = Selector::from_parts(&[
        SelectorPart::new_with_empty(SelectorKind::RelativeParent),
        SelectorPart::new_with_empty(SelectorKind::ChildCombinator),
        SelectorPart::new_with_empty(SelectorKind::RelativeParent),
    ]);
    let combined = Selector::combine(&child, &parent);
    assert_eq!(
        combined,
        Selector::from_parts(&[
            SelectorPart::new_with_value(SelectorKind::Type, Value::from("a")),
            SelectorPart::new_with_value(SelectorKind::Class, Value::from("b")),
            SelectorPart::new_with_empty(SelectorKind::ChildCombinator),
            SelectorPart::new_with_value(SelectorKind::Type, Value::from("a")),
            SelectorPart::new_with_value(SelectorKind::Class, Value::from("b")),
        ])
    );
    assert!(!combined.has_relative_parent());
}
