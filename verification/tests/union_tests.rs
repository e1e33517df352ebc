use mimicry::describe::{FieldParts, VariantMimic};
use mimicry::errors::ParseError;
use mimicry::tuple::SlotValue;
use mimicry::union::Mimic;

fn field(name: &str, outer: &str) -> FieldParts {
    FieldParts { name: name.to_owned(), outer_type: outer.to_owned(), inner_type_list: vec![] }
}

fn mimics() -> Vec<VariantMimic> {
    vec![
        VariantMimic { name: "None".to_owned(), fields: vec![] },
        VariantMimic { name: "Chungus".to_owned(), fields: vec![field("chung_ratio", "usize")] },
    ]
}

#[test]
fn the_mirror_starts_from_the_first_variant() {
    match Mimic::default_for("CatSelector", &mimics()) {
        Mimic::Empty { case } => assert_eq!(case, "CatSelectorNone"),
        _ => panic!("the first case is bare"),
    }
}

#[test]
fn a_variant_without_fields_is_a_bare_case() {
    let case = Mimic::try_from("CatSelector", &mimics()[0], vec![]).unwrap();
    assert_eq!(case.case_name(), "CatSelectorNone");
    assert!(matches!(case, Mimic::Empty { .. }));
    assert_eq!(
        Mimic::try_from("CatSelector", &mimics()[0], vec!["x".to_owned()]).unwrap_err(),
        ParseError::ArityMismatch { expected: 0, actual: 1 }
    );
}

#[test]
fn a_variant_with_fields_holds_its_record() {
    let case = Mimic::try_from("CatSelector", &mimics()[1], vec!["9000".to_owned()]).unwrap();
    assert_eq!(case.case_name(), "CatSelectorChungus");
    match case {
        Mimic::Holding { inner, .. } => {
            assert_eq!(inner.meta.name, "Chungus");
            assert_eq!(inner.instance.slots, vec![SlotValue::Usize(9000)]);
        }
        _ => panic!("the case holds a record"),
    }
    assert_eq!(
        Mimic::try_from("CatSelector", &mimics()[1], vec!["-1".to_owned()]).unwrap_err(),
        ParseError::SlotParseFailure { slot: 0, arity: 1, from_line: false }
    );
}

#[test]
fn a_case_counts_the_owners_verdicts() {
    let tabby = VariantMimic { name: "Tabby".to_owned(), fields: vec![field("fluff_ratio", "f32")] };
    assert_eq!(
        Mimic::try_from_judged("CatSelector", &tabby, vec!["fluffy".to_owned()], &vec![false])
            .unwrap_err(),
        ParseError::SlotParseFailure { slot: 0, arity: 1, from_line: false }
    );
    let case =
        Mimic::try_from_judged("CatSelector", &tabby, vec!["0.5".to_owned()], &vec![true]).unwrap();
    assert_eq!(case.case_name(), "CatSelectorTabby");
}
