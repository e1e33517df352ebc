use mimicry::describe::{generate_mimic_from_variant, VariantMimic};
use mimicry::list::MimicList;
use mimicry::syntax::{Data, DeriveInput, Field, PathArguments, PathSegment, Type, Variant};
use mimicry::text::tokenize;
use mimicry::tuple::{MimicArg, SlotKind, SlotValue};
use mimicry::union::Mimic;
use std::iter::zip;
use std::str::FromStr;

fn plain(name: &str) -> Type {
    Type::Path(vec![PathSegment { ident: name.to_owned(), arguments: PathArguments::Absent }])
}

fn field(name: &str, ty: &str) -> Field {
    Field { ident: Some(name.to_owned()), ty: plain(ty) }
}

fn request_action() -> DeriveInput {
    DeriveInput {
        ident: "RequestAction".to_owned(),
        data: Data::Enum(vec![
            Variant { ident: "None".to_owned(), fields: vec![] },
            Variant {
                ident: "Connect".to_owned(),
                fields: vec![field("name", "String"), field("client_version", "String")],
            },
            Variant { ident: "Disconnect".to_owned(), fields: vec![] },
            Variant {
                ident: "KeepAlive".to_owned(),
                fields: vec![field("latest_response_ack", "u64")],
            },
        ]),
    }
}

fn mimic_of(index: usize) -> VariantMimic {
    match request_action().data {
        Data::Enum(variants) => generate_mimic_from_variant(&variants[index]),
        _ => unreachable!(),
    }
}

#[test]
fn make_requestaction_connect() {
    let responses = vec!["uno".to_owned(), "1.5.2".to_owned()];
    let rac_mimic =
        Mimic::try_from("RequestAction", &mimic_of(1), responses).expect("Failed to parse");

    if let Mimic::Holding { case, inner } = rac_mimic {
        assert_eq!(case, "RequestActionConnect");
        assert_eq!(inner.meta.name, "Connect");
        assert_eq!(inner.instance.slots[0], SlotValue::Text("uno".to_owned()));
        assert_eq!(inner.instance.slots[1], SlotValue::Text("1.5.2".to_owned()));
    } else {
        panic!("a variant with fields holds its record");
    }
}

#[test]
fn make_requestaction_keepalive() {
    let responses = vec!["12763917391823".to_owned()];
    let raka_mimic =
        Mimic::try_from("RequestAction", &mimic_of(3), responses).expect("Failed to parse");

    if let Mimic::Holding { case, inner } = raka_mimic {
        assert_eq!(case, "RequestActionKeepAlive");
        assert_eq!(inner.instance.slots[0], SlotValue::U64(12763917391823));
    } else {
        panic!("a variant with fields holds its record");
    }
}

#[test]
fn make_mimicarg9_heterogenous() {
    let responses = vec![
        "19".to_owned(),
        "13".to_owned(),
        "1.5".to_owned(),
        "Denth".to_owned(),
        "-1089189128".to_owned(),
        "13".to_owned(),
        "1.5".to_owned(),
        "".to_owned(),
        "0".to_owned(),
    ];
    let kinds = vec![
        SlotKind::Usize,
        SlotKind::Isize,
        SlotKind::Deferred,
        SlotKind::Text,
        SlotKind::I64,
        SlotKind::I8,
        SlotKind::Deferred,
        SlotKind::Text,
        SlotKind::U8,
    ];

    let verdicts: Vec<bool> = kinds
        .iter()
        .zip(responses.iter())
        .enumerate()
        .map(|(i, (kind, text))| match (kind, i) {
            (SlotKind::Deferred, 2) => text.parse::<f64>().is_ok(),
            (SlotKind::Deferred, _) => text.parse::<f32>().is_ok(),
            _ => true,
        })
        .collect();

    if let Ok(fca9) = MimicArg::try_from_judged(&kinds, responses, &verdicts) {
        assert_eq!(fca9.slots[0], SlotValue::Usize(19));
        assert_eq!(fca9.slots[1], SlotValue::Isize(13));
        match &fca9.slots[2] {
            SlotValue::Deferred(text) => assert_eq!(text.parse::<f64>(), Ok(1.5)),
            _ => panic!("the third slot is deferred"),
        }
        assert_eq!(fca9.slots[3], SlotValue::Text("Denth".to_owned()));
        assert_eq!(fca9.slots[4], SlotValue::I64(-1089189128));
        assert_eq!(fca9.slots[5], SlotValue::I8(13));
        match &fca9.slots[6] {
            SlotValue::Deferred(text) => assert_eq!(text.parse::<f32>(), Ok(1.5)),
            _ => panic!("the seventh slot is deferred"),
        }
        assert_eq!(fca9.slots[7], SlotValue::Text("".to_owned()));
        assert_eq!(fca9.slots[8], SlotValue::U8(0));
    } else {
        panic!("User input was not parsable");
    }
}

#[test]
#[should_panic]
fn make_not_enough_parameters_to_parse() {
    MimicArg::try_from(&vec![SlotKind::Text, SlotKind::Isize], vec!["undersized".to_owned()])
        .unwrap();
}

#[test]
#[should_panic]
fn make_too_many_parameters_to_parse() {
    MimicArg::try_from(
        &vec![SlotKind::Text, SlotKind::Isize],
        vec!["1".to_owned(), "2".to_owned(), "3".to_owned()],
    )
    .unwrap();
}

#[test]
fn make_mimic_list_from_string() {
    let a: Vec<SlotValue> =
        MimicList::<SlotValue>::from_str(SlotKind::Isize, "1; 2; 3").unwrap().into();
    let b = vec![SlotValue::Isize(1), SlotValue::Isize(2), SlotValue::Isize(3)];
    assert_eq!(a, b);
}

#[derive(Debug, PartialEq, Eq)]
struct Foo {
    a: isize,
    b: String,
}

impl FromStr for Foo {
    type Err = &'static str;

    fn from_str(s: &str) -> Result<Self, Self::Err> {
        let list = s.split(",").collect::<Vec<&str>>();
        assert_eq!(list.len(), 2);

        let a = list[0].parse::<isize>().map_err(|_| "Failed to parse first arg as isize")?;
        let b = list[1].parse::<String>().map_err(|_| "Failed to parse second arg as String")?;
        Ok(Foo { a, b })
    }
}

#[test]
fn make_mimic_list_from_complex_type() {
    let parsed: Vec<Option<Foo>> = tokenize("1,2;    2, 3      ; 3,4", ';')
        .iter()
        .map(|item| item.parse::<Foo>().ok())
        .collect();
    let a: Vec<Foo> = MimicList::from_parsed(parsed).unwrap().into();
    let b = vec![
        Foo { a: 1, b: "2".to_owned() },
        Foo { a: 2, b: "3".to_owned() },
        Foo { a: 3, b: "4".to_owned() },
    ];
    assert_eq!(a.len(), 3);
    assert_eq!(a[0], b[0]);

    let _ = zip(a, b).map(|(a, b)| {
        assert_eq!(a, b);
    });
}

#[test]
fn make_mimic_list_from_mimicarg2() {
    let a: Vec<MimicArg> = MimicList::<MimicArg>::from_str(
        &vec![SlotKind::Isize, SlotKind::Text],
        "1,2;    2, 3      ; 3,4;",
    )
    .unwrap()
    .into();
    let b = vec![(1, "2"), (2, "3"), (3, "4")];
    assert_eq!(a.len(), b.len());
    for (a, b) in a.iter().zip(b) {
        assert_eq!(a.slots[0], SlotValue::Isize(b.0));
        assert_eq!(a.slots[1], SlotValue::Text(b.1.to_owned()));
    }
}
