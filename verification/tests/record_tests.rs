use mimicry::describe::{FieldParts, VariantMimic};
use mimicry::errors::ParseError;
use mimicry::record::{has_placeholder, kinds_of_variant, metadata_of, MimicRecord};
use mimicry::tuple::{SlotKind, SlotValue};

fn field(name: &str, outer: &str, inner: &[&str]) -> FieldParts {
    FieldParts {
        name: name.to_owned(),
        outer_type: outer.to_owned(),
        inner_type_list: inner.iter().map(|s| s.to_string()).collect(),
    }
}

fn variant(name: &str, fields: Vec<FieldParts>) -> VariantMimic {
    VariantMimic { name: name.to_owned(), fields }
}

fn connect() -> VariantMimic {
    variant("Connect", vec![field("name", "String", &[]), field("client_version", "String", &[])])
}

#[test]
fn the_kinds_follow_the_outer_types() {
    let mimic = variant(
        "Mixed",
        vec![field("a", "u8", &[]), field("b", "String", &[]), field("c", "Vec", &["Foo"])],
    );
    assert_eq!(kinds_of_variant(&mimic), vec![SlotKind::U8, SlotKind::Text, SlotKind::Deferred]);
}

#[test]
fn the_description_is_carried_over() {
    let mimic = variant("Table", vec![field("rows", "HashMap", &["String", "Row"])]);
    let meta = metadata_of(&mimic);
    assert_eq!(meta.name, "Table");
    assert_eq!(meta.fields.len(), 1);
    assert_eq!(meta.fields[0].name, "rows");
    assert_eq!(meta.fields[0].type_, "HashMap");
    assert_eq!(meta.fields[0].type_arguments, vec!["String".to_owned(), "Row".to_owned()]);
}

#[test]
fn a_fresh_record_holds_places() {
    let none = MimicRecord::default_for(&variant("None", vec![]));
    assert_eq!(none.meta.name, "None");
    assert!(none.instance.slots.is_empty());

    let keep_alive =
        MimicRecord::default_for(&variant("KeepAlive", vec![field("ack", "u64", &[])]));
    assert_eq!(keep_alive.instance.slots, vec![SlotValue::U64(0)]);

    let named = MimicRecord::default_for(&variant("Named", vec![field("name", "String", &[])]));
    assert_eq!(named.instance.slots, vec![SlotValue::Text("0".to_owned())]);

    let fresh = MimicRecord::default_for(&connect());
    assert_eq!(fresh.meta.fields.len(), 2);
    assert_eq!(
        fresh.instance.slots,
        vec![SlotValue::Text(String::new()), SlotValue::Text(String::new())]
    );
}

#[test]
fn two_fresh_records_are_alike() {
    let first = MimicRecord::default_for(&connect());
    let second = MimicRecord::default_for(&connect());
    assert_eq!(first.meta.name, second.meta.name);
    assert_eq!(first.meta.fields.len(), second.meta.fields.len());
    for (a, b) in first.meta.fields.iter().zip(second.meta.fields.iter()) {
        assert_eq!(a.name, b.name);
        assert_eq!(a.type_, b.type_);
        assert_eq!(a.type_arguments, b.type_arguments);
    }
    assert_eq!(first.instance.slots, second.instance.slots);
}

#[test]
fn not_every_variant_has_a_placeholder() {
    assert!(has_placeholder(&variant("None", vec![])));
    assert!(has_placeholder(&connect()));
    assert!(has_placeholder(&variant("One", vec![field("n", "i8", &[])])));
    assert!(has_placeholder(&variant("One", vec![field("x", "Foo", &[])])));
    assert!(!has_placeholder(&variant("Flag", vec![field("on", "bool", &[])])));
    assert!(!has_placeholder(&variant(
        "Pair",
        vec![field("name", "String", &[]), field("n", "u64", &[])]
    )));
}

#[test]
fn a_record_is_made_of_the_description_and_the_values() {
    let record = MimicRecord::try_from(&connect(), vec!["uno".to_owned(), "1.5.2".to_owned()])
        .unwrap();
    assert_eq!(record.meta.name, "Connect");
    assert_eq!(record.meta.fields[1].name, "client_version");
    assert_eq!(
        record.instance.slots,
        vec![SlotValue::Text("uno".to_owned()), SlotValue::Text("1.5.2".to_owned())]
    );
}

#[test]
fn a_record_passes_the_failure_on() {
    assert_eq!(
        MimicRecord::try_from(&connect(), vec!["uno".to_owned()]).unwrap_err(),
        ParseError::ArityMismatch { expected: 2, actual: 1 }
    );
    let flag = variant("Flag", vec![field("on", "bool", &[])]);
    assert_eq!(
        MimicRecord::try_from(&flag, vec!["perhaps".to_owned()]).unwrap_err(),
        ParseError::SlotParseFailure { slot: 0, arity: 1, from_line: false }
    );
    assert_eq!(
        MimicRecord::try_from(&flag, vec!["true".to_owned()]).unwrap().instance.slots,
        vec![SlotValue::Bool(true)]
    );
}

#[test]
fn a_record_counts_the_owners_verdicts() {
    let tabby = variant("Tabby", vec![field("fluff_ratio", "f32", &[]), field("age", "u8", &[])]);
    let answers = vec!["fluffy".to_owned(), "old".to_owned()];
    let verdicts = vec![answers[0].parse::<f32>().is_ok(), true];
    assert_eq!(
        MimicRecord::try_from_judged(&tabby, answers, &verdicts).unwrap_err(),
        ParseError::SlotParseFailure { slot: 0, arity: 2, from_line: false }
    );
    let record =
        MimicRecord::try_from_judged(&tabby, vec!["0.5".to_owned(), "3".to_owned()], &vec![true, true])
            .unwrap();
    assert_eq!(record.meta.name, "Tabby");
    assert_eq!(
        record.instance.slots,
        vec![SlotValue::Deferred("0.5".to_owned()), SlotValue::U8(3)]
    );
}
