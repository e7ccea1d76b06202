use builder::construct::FieldValue;
use builder::generate::BuilderArtifact;
use builder::schema::{FieldSpec, RecordSource, SourceShape, TypeDescriptor};

fn plain_type(name: &str) -> TypeDescriptor {
    TypeDescriptor::Plain(name.to_string())
}

fn wrapper_type(head: &str, inner: &str) -> TypeDescriptor {
    TypeDescriptor::Wrapped(head.to_string(), Box::new(plain_type(inner)))
}

fn spec(name: &str, declared_type: TypeDescriptor, each: Option<&str>) -> FieldSpec {
    FieldSpec {
        name: name.to_string(),
        visibility: String::new(),
        declared_type,
        each: each.map(|s| s.to_string()),
    }
}

fn layout(name: &str, fields: Vec<FieldSpec>) -> BuilderArtifact {
    builder::generate::derive(&RecordSource { name: name.to_string(), shape: SourceShape::Record(fields) }).unwrap()
}

fn person() -> BuilderArtifact {
    layout(
        "Person",
        vec![
            spec("name", plain_type("String"), None),
            spec("id", wrapper_type("Option", "i64"), None),
            spec("tags", wrapper_type("Vec", "String"), Some("tag")),
        ],
    )
}

fn point() -> BuilderArtifact {
    layout(
        "Point",
        vec![
            spec("x", plain_type("i32"), None),
            spec("y", plain_type("i32"), None),
            spec("z", plain_type("i32"), None),
        ],
    )
}

#[test]
fn person_without_name_is_not_constructed() {
    let plan = person();
    let mut b = plan.builder::<&str>();
    assert!(b.set("tag", "x"));
    assert!(b.set("tag", "y"));
    assert_eq!(b.build(), None);
}

#[test]
fn person_with_name_and_tags_is_constructed() {
    let plan = person();
    let mut b = plan.builder::<&str>();
    assert!(b.set("name", "Bob"));
    assert!(b.set("tag", "x"));
    assert!(b.set("tag", "y"));
    assert_eq!(
        b.build(),
        Some(vec![
            FieldValue::Value("Bob"),
            FieldValue::Optional(None),
            FieldValue::Collection(vec!["x", "y"]),
        ])
    );
}

#[test]
fn required_only_fails_until_every_setter_was_called() {
    let plan = point();
    let mut b = plan.builder::<i32>();
    assert_eq!(b.build(), None);
    assert!(b.set("x", 1));
    assert_eq!(b.build(), None);
    assert!(b.set("z", 3));
    assert_eq!(b.build(), None);
    assert!(b.set("y", 2));
    assert_eq!(
        b.build(),
        Some(vec![FieldValue::Value(1), FieldValue::Value(2), FieldValue::Value(3)])
    );
}

#[test]
fn required_field_keeps_last_value() {
    let plan = point();
    let mut b = plan.builder::<i32>();
    b.set("x", 1);
    b.set("y", 2);
    b.set("z", 3);
    b.set("x", 10);
    assert_eq!(
        b.build(),
        Some(vec![FieldValue::Value(10), FieldValue::Value(2), FieldValue::Value(3)])
    );
}

#[test]
fn record_fields_follow_declaration_order_not_call_order() {
    let plan = point();
    let mut b = plan.builder::<i32>();
    b.set("z", 3);
    b.set("y", 2);
    b.set("x", 1);
    assert_eq!(
        b.build(),
        Some(vec![FieldValue::Value(1), FieldValue::Value(2), FieldValue::Value(3)])
    );
}

#[test]
fn optional_field_never_set_holds_no_value() {
    let plan = layout("Config", vec![spec("limit", wrapper_type("Option", "u8"), None)]);
    let b = plan.builder::<u8>();
    assert_eq!(b.build(), Some(vec![FieldValue::Optional(None)]));
}

#[test]
fn optional_field_set_holds_the_value() {
    let plan = layout("Config", vec![spec("limit", wrapper_type("Option", "u8"), None)]);
    let mut b = plan.builder::<u8>();
    assert!(b.set("limit", 7));
    assert_eq!(b.build(), Some(vec![FieldValue::Optional(Some(7))]));
}

#[test]
fn accumulating_field_never_set_is_empty() {
    let plan = layout("Bag", vec![spec("items", wrapper_type("Vec", "u8"), Some("item"))]);
    let b = plan.builder::<u8>();
    assert_eq!(b.build(), Some(vec![FieldValue::Collection(vec![])]));
}

#[test]
fn accumulating_field_collects_in_call_order() {
    let plan = layout("Bag", vec![spec("items", wrapper_type("Vec", "u8"), Some("item"))]);
    let mut b = plan.builder::<u8>();
    for v in [5u8, 3, 9, 3, 1] {
        assert!(b.set("item", v));
    }
    match b.build() {
        Some(record) => {
            assert_eq!(record.len(), 1);
            assert_eq!(record[0], FieldValue::Collection(vec![5, 3, 9, 3, 1]));
        }
        None => panic!("construction failed"),
    }
}

#[test]
fn accumulating_field_has_no_whole_collection_setter() {
    let plan = layout("Bag", vec![spec("items", wrapper_type("Vec", "u8"), Some("item"))]);
    let mut b = plan.builder::<u8>();
    assert!(!b.set("items", 1));
    assert_eq!(b.build(), Some(vec![FieldValue::Collection(vec![])]));
}

#[test]
fn unknown_setter_changes_nothing() {
    let plan = point();
    let mut b = plan.builder::<i32>();
    b.set("x", 1);
    b.set("y", 2);
    assert!(!b.set("w", 4));
    assert_eq!(b.build(), None);
    b.set("z", 3);
    assert!(!b.set("", 4));
    assert_eq!(
        b.build(),
        Some(vec![FieldValue::Value(1), FieldValue::Value(2), FieldValue::Value(3)])
    );
}

#[test]
fn builder_can_construct_again_after_more_setters() {
    let plan = person();
    let mut b = plan.builder::<&str>();
    b.set("tag", "x");
    assert_eq!(b.build(), None);
    b.set("name", "Ann");
    let first = b.build();
    b.set("tag", "y");
    b.set("id", "7");
    let second = b.build();
    assert_eq!(
        first,
        Some(vec![
            FieldValue::Value("Ann"),
            FieldValue::Optional(None),
            FieldValue::Collection(vec!["x"]),
        ])
    );
    assert_eq!(
        second,
        Some(vec![
            FieldValue::Value("Ann"),
            FieldValue::Optional(Some("7")),
            FieldValue::Collection(vec!["x", "y"]),
        ])
    );
}

#[test]
fn empty_record_is_constructed_at_once() {
    let plan = layout("Unit", vec![]);
    let b = plan.builder::<u8>();
    assert_eq!(b.len(), 0);
    assert_eq!(b.build(), Some(vec![]));
}

#[test]
fn find_setter_gives_the_field_position() {
    let plan = person();
    let b = plan.builder::<&str>();
    assert_eq!(b.len(), 3);
    assert_eq!(b.find_setter("name"), Some(0));
    assert_eq!(b.find_setter("id"), Some(1));
    assert_eq!(b.find_setter("tag"), Some(2));
    assert_eq!(b.find_setter("tags"), None);
}

#[test]
fn find_setter_takes_the_first_of_equal_names() {
    let plan = layout(
        "Pair",
        vec![
            spec("a", wrapper_type("Vec", "u8"), Some("b")),
            spec("b", plain_type("u8"), None),
        ],
    );
    let b = plan.builder::<u8>();
    assert_eq!(b.find_setter("b"), Some(0));
}

#[test]
fn set_at_calls_the_setter_at_a_position() {
    let plan = person();
    let mut b = plan.builder::<&str>();
    b.set_at(2, "x");
    b.set_at(0, "Bob");
    b.set_at(1, "42");
    b.set_at(2, "y");
    assert_eq!(
        b.build(),
        Some(vec![
            FieldValue::Value("Bob"),
            FieldValue::Optional(Some("42")),
            FieldValue::Collection(vec!["x", "y"]),
        ])
    );
}

#[test]
fn duplicate_copies_each_kind_of_value() {
    let v: FieldValue<u8> = FieldValue::Value(3);
    let o: FieldValue<u8> = FieldValue::Optional(Some(4));
    let c: FieldValue<u8> = FieldValue::Collection(vec![1, 2, 3]);
    assert_eq!(v.duplicate(), FieldValue::Value(3));
    assert_eq!(o.duplicate(), FieldValue::Optional(Some(4)));
    assert_eq!(c.duplicate(), FieldValue::Collection(vec![1, 2, 3]));
}
