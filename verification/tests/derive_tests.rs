use mimicry::describe::{FieldParts, VariantMimic};
use mimicry::derive::{
    build_mimic_field_from_parts, can_mirror, generate_mimic_enum, generate_mimic_for,
    generate_mimic_struct_for_each_variant, generate_mimic_try_from, impl_mimic_for_enum,
};
use mimicry::syntax::{Data, DeriveInput, Field, PathArguments, PathSegment, Type, Variant};

fn parts(name: &str, outer: &str, inner: &[&str]) -> FieldParts {
    FieldParts {
        name: name.to_owned(),
        outer_type: outer.to_owned(),
        inner_type_list: inner.iter().map(|s| s.to_string()).collect(),
    }
}

fn mimics() -> Vec<VariantMimic> {
    vec![
        VariantMimic { name: "None".to_owned(), fields: vec![] },
        VariantMimic {
            name: "Connect".to_owned(),
            fields: vec![parts("name", "String", &[]), parts("client_version", "String", &[])],
        },
        VariantMimic {
            name: "KeepAlive".to_owned(),
            fields: vec![parts("latest_response_ack", "u64", &[])],
        },
    ]
}

fn plain(name: &str) -> Type {
    Type::Path(vec![PathSegment { ident: name.to_owned(), arguments: PathArguments::Absent }])
}

fn field(name: &str, ty: &str) -> Field {
    Field { ident: Some(name.to_owned()), ty: plain(ty) }
}

fn request_action() -> DeriveInput {
    DeriveInput {
        ident: "RequestAction".to_owned(),
        data: Data::Enum(vec![
            Variant { ident: "None".to_owned(), fields: vec![] },
            Variant {
                ident: "Connect".to_owned(),
                fields: vec![field("name", "String"), field("client_version", "String")],
            },
            Variant { ident: "Disconnect".to_owned(), fields: vec![] },
            Variant {
                ident: "KeepAlive".to_owned(),
                fields: vec![field("latest_response_ack", "u64")],
            },
        ]),
    }
}

#[test]
fn the_description_of_a_field_as_an_expression() {
    let fields = vec![parts("ack", "u64", &[]), parts("rows", "HashMap", &["String", "Row"])];
    assert_eq!(
        build_mimic_field_from_parts(&fields),
        vec![
            "MimicFieldData { name: \"ack\", type_: \"u64\", type_arguments: vec![] }".to_owned(),
            "MimicFieldData { name: \"rows\", type_: \"HashMap\", type_arguments: vec![\"String\", \"Row\",] }"
                .to_owned(),
        ]
    );
    assert!(build_mimic_field_from_parts(&vec![]).is_empty());
}

#[test]
fn the_record_of_a_variant_without_fields() {
    let texts = generate_mimic_struct_for_each_variant(&mimics(), "RequestAction");
    assert_eq!(texts.len(), 3);
    let expected = "pub struct RequestActionNone {
    pub meta: MimicMetadata,
    pub instance: MimicArg0,
}

impl Default for RequestActionNone {
    fn default() -> Self {
        RequestActionNone {
            meta: MimicMetadata {
                name: \"None\",
                fields: vec![],
            },
            instance: MimicArg0 {},
        }
    }
}
";
    assert_eq!(texts[0], expected);
}

#[test]
fn the_record_of_a_variant_with_one_field() {
    let texts = generate_mimic_struct_for_each_variant(&mimics(), "RequestAction");
    let expected = "pub struct RequestActionKeepAlive {
    pub meta: MimicMetadata,
    pub instance: MimicArg1<u64>,
}

impl Default for RequestActionKeepAlive {
    fn default() -> Self {
        RequestActionKeepAlive {
            meta: MimicMetadata {
                name: \"KeepAlive\",
                fields: vec![MimicFieldData { name: \"latest_response_ack\", type_: \"u64\", type_arguments: vec![] }],
            },
            instance: MimicArg1::<u64> { f0: u64::from_str(\"0\").unwrap() },
        }
    }
}
";
    assert_eq!(texts[2], expected);
}

#[test]
fn the_record_of_a_variant_with_two_fields() {
    let texts = generate_mimic_struct_for_each_variant(&mimics(), "RequestAction");
    let expected = "pub struct RequestActionConnect {
    pub meta: MimicMetadata,
    pub instance: MimicArg2<String, String>,
}

impl Default for RequestActionConnect {
    fn default() -> Self {
        RequestActionConnect {
            meta: MimicMetadata {
                name: \"Connect\",
                fields: vec![MimicFieldData { name: \"name\", type_: \"String\", type_arguments: vec![] }, MimicFieldData { name: \"client_version\", type_: \"String\", type_arguments: vec![] }],
            },
            instance: MimicArg2::<String, String> { f0: \"\".into(), f1: \"\".into() },
        }
    }
}
";
    assert_eq!(texts[1], expected);
}

#[test]
fn the_mirroring_enum() {
    let expected = "#[derive(Default)]
pub enum MimicRequestAction {
    #[default]
    RequestActionNone,
    RequestActionConnect { inner: RequestActionConnect },
    RequestActionKeepAlive { inner: RequestActionKeepAlive },
}
";
    assert_eq!(generate_mimic_enum(&mimics(), "RequestAction"), vec![expected.to_owned()]);
}

#[test]
fn the_conversion_of_a_record() {
    let texts = generate_mimic_try_from(&mimics(), "RequestAction");
    assert_eq!(texts.len(), 3);
    let expected = "impl TryFrom<Vec<String>> for RequestActionConnect {
    type Error = &'static str;

    fn try_from(value: Vec<String>) -> Result<Self, Self::Error> {
        let instance = MimicArg2::<String, String>::try_from(value)?;
        Ok(RequestActionConnect {
            meta: MimicMetadata {
                name: \"Connect\",
                fields: vec![MimicFieldData { name: \"name\", type_: \"String\", type_arguments: vec![] }, MimicFieldData { name: \"client_version\", type_: \"String\", type_arguments: vec![] }],
            },
            instance,
        })
    }
}
";
    assert_eq!(texts[1], expected);
    assert!(texts[0].contains("let instance = MimicArg0::<>::try_from(value)?;"));
    for text in &texts {
        assert!(!text.contains("default()"));
    }
}

#[test]
fn only_an_enum_with_named_fields_is_mirrored() {
    assert!(can_mirror(&request_action()));
    assert!(can_mirror(&DeriveInput { ident: "E".to_owned(), data: Data::Enum(vec![]) }));
    assert!(!can_mirror(&DeriveInput { ident: "S".to_owned(), data: Data::Struct }));
    assert!(!can_mirror(&DeriveInput { ident: "U".to_owned(), data: Data::Union }));
    let tuple_like = DeriveInput {
        ident: "E".to_owned(),
        data: Data::Enum(vec![
            Variant { ident: "A".to_owned(), fields: vec![field("x", "u8")] },
            Variant {
                ident: "B".to_owned(),
                fields: vec![field("x", "u8"), Field { ident: None, ty: plain("u8") }],
            },
        ]),
    };
    assert!(!can_mirror(&tuple_like));
}

#[test]
fn the_mirror_of_an_enum_is_rust_items() {
    let ast = request_action();
    let text = generate_mimic_for(&ast);
    assert_eq!(text, impl_mimic_for_enum(&ast));
    let file = syn::parse_str::<syn::File>(&text).expect("items");
    let names: Vec<String> = file
        .items
        .iter()
        .map(|item| match item {
            syn::Item::Struct(item) => format!("struct {}", item.ident),
            syn::Item::Enum(item) => format!("enum {}", item.ident),
            syn::Item::Impl(item) => {
                let (_, path, _) = item.trait_.as_ref().unwrap();
                format!("impl {}", path.segments.last().unwrap().ident)
            }
            _ => panic!("no other item is written"),
        })
        .collect();
    assert_eq!(
        names,
        vec![
            "struct RequestActionNone",
            "impl Default",
            "struct RequestActionConnect",
            "impl Default",
            "struct RequestActionDisconnect",
            "impl Default",
            "struct RequestActionKeepAlive",
            "impl Default",
            "enum MimicRequestAction",
            "impl TryFrom",
            "impl TryFrom",
            "impl TryFrom",
            "impl TryFrom",
        ]
    );
    match &file.items[8] {
        syn::Item::Enum(item) => {
            assert_eq!(item.variants.len(), 4);
            assert_eq!(item.variants[0].attrs.len(), 1);
            assert!(item.variants[0].fields.is_empty());
            assert_eq!(item.variants[1].fields.len(), 1);
        }
        _ => unreachable!(),
    }
}

#[test]
fn the_mirror_of_an_enum_without_variants() {
    let text = generate_mimic_for(&DeriveInput { ident: "E".to_owned(), data: Data::Enum(vec![]) });
    assert_eq!(text, "#[derive(Default)]\npub enum MimicE {\n    #[default]\n    \n}\n");
}
