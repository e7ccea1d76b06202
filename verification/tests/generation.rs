use builder::classify::{arguments_of, classify, FieldStrategy, InitialValue, SetterAction};
use builder::schema::{FieldSpec, GenerationError, RecordSource, SourceShape, TypeDescriptor};

fn plain(name: &str) -> TypeDescriptor {
    TypeDescriptor::Plain(name.to_string())
}

fn wrapped(head: &str, inner: TypeDescriptor) -> TypeDescriptor {
    TypeDescriptor::Wrapped(head.to_string(), Box::new(inner))
}

fn field(name: &str, declared_type: TypeDescriptor, each: Option<&str>) -> FieldSpec {
    FieldSpec {
        name: name.to_string(),
        visibility: "pub".to_string(),
        declared_type,
        each: each.map(|s| s.to_string()),
    }
}

fn record(name: &str, fields: Vec<FieldSpec>) -> RecordSource {
    RecordSource { name: name.to_string(), shape: SourceShape::Record(fields) }
}

#[test]
fn arguments_of_yields_first_argument_of_named_wrapper() {
    let t = wrapped("Option", plain("u32"));
    assert_eq!(arguments_of(&t, "Option"), Some(plain("u32")));
    let v = wrapped("Vec", wrapped("Option", plain("String")));
    assert_eq!(arguments_of(&v, "Vec"), Some(wrapped("Option", plain("String"))));
}

#[test]
fn arguments_of_rejects_other_heads() {
    let t = wrapped("Option", plain("u32"));
    assert_eq!(arguments_of(&t, "Vec"), None);
    assert_eq!(arguments_of(&t, "option"), None);
    assert_eq!(arguments_of(&t, "Optio"), None);
    assert_eq!(arguments_of(&t, ""), None);
}

#[test]
fn arguments_of_plain_type_is_nothing() {
    assert_eq!(arguments_of(&plain("Option"), "Option"), None);
    assert_eq!(arguments_of(&plain("String"), "Vec"), None);
}

#[test]
fn arguments_of_does_not_hand_back_its_argument() {
    let t = wrapped("Vec", plain("String"));
    let got = arguments_of(&t, "Vec").unwrap();
    assert_ne!(got, t);
    assert_eq!(got, plain("String"));
}

#[test]
fn classify_plain_field_is_required() {
    let f = field("name", plain("String"), None);
    assert_eq!(classify(&f), Ok(FieldStrategy::Required(f.clone())));
}

#[test]
fn classify_collection_without_accumulator_is_required() {
    let f = field("args", wrapped("Vec", plain("String")), None);
    assert_eq!(classify(&f), Ok(FieldStrategy::Required(f.clone())));
}

#[test]
fn classify_unknown_wrapper_is_required() {
    let f = field("cache", wrapped("Rc", plain("String")), None);
    assert_eq!(classify(&f), Ok(FieldStrategy::Required(f.clone())));
}

#[test]
fn classify_optional_field() {
    let f = field("id", wrapped("Option", plain("u32")), None);
    assert_eq!(classify(&f), Ok(FieldStrategy::OptionalWrapped(f.clone(), plain("u32"))));
}

#[test]
fn classify_optional_ignores_accumulator() {
    let f = field("id", wrapped("Option", plain("u32")), Some("one"));
    assert_eq!(classify(&f), Ok(FieldStrategy::OptionalWrapped(f.clone(), plain("u32"))));
}

#[test]
fn classify_optional_collection_is_optional_even_with_accumulator() {
    let t = wrapped("Option", wrapped("Vec", plain("String")));
    let f = field("tags", t, Some("tag"));
    assert_eq!(
        classify(&f),
        Ok(FieldStrategy::OptionalWrapped(f.clone(), wrapped("Vec", plain("String"))))
    );
}

#[test]
fn classify_accumulating_field() {
    let f = field("tags", wrapped("Vec", plain("String")), Some("tag"));
    assert_eq!(
        classify(&f),
        Ok(FieldStrategy::Accumulating(f.clone(), plain("String"), "tag".to_string()))
    );
}

#[test]
fn classify_accumulator_name_is_kept_verbatim() {
    let f = field("tags", wrapped("Vec", plain("String")), Some("not an identifier!"));
    match classify(&f) {
        Ok(FieldStrategy::Accumulating(_, _, method)) => assert_eq!(method, "not an identifier!"),
        other => panic!("unexpected outcome: {:?}", other),
    }
}

#[test]
fn classify_accumulator_on_plain_type_is_an_error() {
    let f = field("name", plain("String"), Some("letter"));
    assert_eq!(classify(&f), Err(GenerationError::MisappliedAccumulator));
}

#[test]
fn classify_accumulator_on_other_wrapper_is_an_error() {
    let f = field("set", wrapped("HashSet", plain("String")), Some("item"));
    assert_eq!(classify(&f), Err(GenerationError::MisappliedAccumulator));
}

#[test]
fn classify_matches_wrapper_by_name_alone() {
    // A type of the user's own that happens to be called `Vec` counts as the collection.
    let f = field("items", wrapped("Vec", plain("Item")), Some("item"));
    assert!(matches!(classify(&f), Ok(FieldStrategy::Accumulating(_, _, _))));
}

#[test]
fn strategy_parts_of_required_field() {
    let f = field("name", plain("String"), None);
    let s = classify(&f).unwrap();
    assert_eq!(s.field(), &f);
    assert_eq!(s.initial_value(), InitialValue::Unset);
    assert_eq!(s.setter_name(), "name");
    assert_eq!(s.setter_param(), &plain("String"));
    assert_eq!(s.setter_action(), SetterAction::Store);
}

#[test]
fn strategy_parts_of_optional_field() {
    let f = field("id", wrapped("Option", plain("u32")), None);
    let s = classify(&f).unwrap();
    assert_eq!(s.field(), &f);
    assert_eq!(s.initial_value(), InitialValue::NoValue);
    assert_eq!(s.setter_name(), "id");
    assert_eq!(s.setter_param(), &plain("u32"));
    assert_eq!(s.setter_action(), SetterAction::StoreSome);
}

#[test]
fn strategy_parts_of_accumulating_field() {
    let f = field("tags", wrapped("Vec", plain("String")), Some("tag"));
    let s = classify(&f).unwrap();
    assert_eq!(s.field(), &f);
    assert_eq!(s.initial_value(), InitialValue::EmptyCollection);
    assert_eq!(s.setter_name(), "tag");
    assert_eq!(s.setter_param(), &plain("String"));
    assert_eq!(s.setter_action(), SetterAction::Append);
}

#[test]
fn derive_names_the_builder_after_the_record() {
    let art = builder::generate::derive(&record("Command", vec![])).unwrap();
    assert_eq!(art.record_name, "Command");
    assert_eq!(art.builder_name, "CommandBuilder");
    assert!(art.fields.is_empty());
}

#[test]
fn derive_keeps_declaration_order() {
    let fields = vec![
        field("executable", plain("String"), None),
        field("args", wrapped("Vec", plain("String")), Some("arg")),
        field("env", wrapped("Vec", plain("String")), None),
        field("current_dir", wrapped("Option", plain("String")), None),
    ];
    let art = builder::generate::derive(&record("Command", fields.clone())).unwrap();
    assert_eq!(art.fields.len(), 4);
    for i in 0..4 {
        assert_eq!(art.fields[i].field(), &fields[i]);
    }
    assert!(matches!(art.fields[0], FieldStrategy::Required(_)));
    assert!(matches!(art.fields[1], FieldStrategy::Accumulating(_, _, _)));
    assert!(matches!(art.fields[2], FieldStrategy::Required(_)));
    assert!(matches!(art.fields[3], FieldStrategy::OptionalWrapped(_, _)));
    let setters: Vec<&str> = art.fields.iter().map(|s| s.setter_name().as_str()).collect();
    assert_eq!(setters, vec!["executable", "arg", "env", "current_dir"]);
}

#[test]
fn derive_passes_visibility_through() {
    let mut f = field("name", plain("String"), None);
    f.visibility = "pub(crate)".to_string();
    let art = builder::generate::derive(&record("Person", vec![f])).unwrap();
    assert_eq!(art.fields[0].field().visibility, "pub(crate)");
}

#[test]
fn derive_fails_on_tagged_union() {
    let source = RecordSource { name: "Shape".to_string(), shape: SourceShape::Variants };
    assert_eq!(builder::generate::derive(&source), Err(GenerationError::UnsupportedShape));
}

#[test]
fn derive_fails_on_union() {
    let source = RecordSource { name: "Bits".to_string(), shape: SourceShape::Union };
    assert_eq!(builder::generate::derive(&source), Err(GenerationError::UnsupportedShape));
}

#[test]
fn derive_fails_whole_record_on_misapplied_accumulator() {
    let fields = vec![
        field("name", plain("String"), None),
        field("id", plain("u32"), Some("digit")),
        field("tags", wrapped("Vec", plain("String")), Some("tag")),
    ];
    assert_eq!(builder::generate::derive(&record("Person", fields)), Err(GenerationError::MisappliedAccumulator));
}

#[test]
fn derive_fails_when_last_field_is_misconfigured() {
    let fields = vec![
        field("tags", wrapped("Vec", plain("String")), Some("tag")),
        field("name", plain("String"), Some("letter")),
    ];
    assert_eq!(builder::generate::derive(&record("Person", fields)), Err(GenerationError::MisappliedAccumulator));
}
