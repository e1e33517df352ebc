//! Source text of what mirrors an enum: a record type for each variant,
//! holding the variant's description and a tuple of its fields; the enum of
//! those records; and each record's conversion from a list of strings.

use vstd::prelude::*;
use vstd::string::*;
use crate::describe::{field_views, generate_mimic_from_variant, record_name, record_name_of};
use crate::describe::variant_mimic;
use crate::describe::{FieldParts, FieldPartsView, VariantMimic, VariantMimicView};
use crate::errors::{arg_name, push_arg_name};
use crate::syntax::{Data, DeriveInput, Variant};
use crate::text::{join, joined, push_text, slot_name, slot_name_of};
use crate::text::{string_literal, string_literal_of, views};

verus! {

/// The outer types of the fields, in order.
pub open spec fn outer_types(fields: Seq<FieldPartsView>) -> Seq<Seq<char>> {
    Seq::new(fields.len(), |i: int| fields[i].outer_type)
}

/// The wrapped types of a field, each as a string literal followed by a comma.
pub open spec fn type_argument_literals(inner: Seq<Seq<char>>) -> Seq<Seq<char>> {
    Seq::new(inner.len(), |k: int| string_literal(inner[k]) + ","@)
}

/// The expression that builds the description of one field.
pub open spec fn field_data_text(field: FieldPartsView) -> Seq<char> {
    "MimicFieldData { name: "@ + string_literal(field.name) + ", type_: "@ + string_literal(
        field.outer_type,
    ) + ", type_arguments: vec!["@ + joined(type_argument_literals(field.inner_type_list), " "@)
        + "] }"@
}

/// The expressions that build the descriptions of the fields, in order.
pub open spec fn field_data_texts(fields: Seq<FieldPartsView>) -> Seq<Seq<char>> {
    Seq::new(fields.len(), |i: int| field_data_text(fields[i]))
}

/// The tuple type of the family, applied to `types`, as it is written after
/// a name (`turbofish` false) or in an expression (`turbofish` true).
pub open spec fn tuple_type_text(types: Seq<Seq<char>>, turbofish: bool) -> Seq<char> {
    arg_name(types.len()) + if turbofish {
        "::<"@
    } else {
        "<"@
    } + joined(types, ", "@) + ">"@
}

/// The type of the field `instance`: the tuple type with one parameter for
/// each field, and without angle brackets where there is no field.
pub open spec fn instance_type_text(types: Seq<Seq<char>>) -> Seq<char> {
    if types.len() == 0 {
        arg_name(0)
    } else {
        tuple_type_text(types, false)
    }
}

/// The initializers of a placeholder with several slots: each slot made
/// from the empty string.
pub open spec fn empty_slot_texts(n: nat) -> Seq<Seq<char>> {
    Seq::new(n, |j: int| slot_name(j as nat) + ": \"\".into()"@)
}

/// The placeholder tuple of a fresh record. Without fields it is the empty
/// tuple; with one field, that field's type parsed from `"0"`; with more,
/// every slot made from the empty string.
pub open spec fn instance_value_text(types: Seq<Seq<char>>) -> Seq<char> {
    if types.len() == 0 {
        arg_name(0) + " {}"@
    } else if types.len() == 1 {
        tuple_type_text(types, true) + " { f0: "@ + types[0] + "::from_str(\"0\").unwrap() }"@
    } else {
        tuple_type_text(types, true) + " { "@ + joined(empty_slot_texts(types.len()), ", "@)
            + " }"@
    }
}

/// The expression that builds the description of a variant: its name and
/// the descriptions of its fields.
pub open spec fn metadata_text(mimic: VariantMimicView) -> Seq<char> {
    "MimicMetadata {\n                name: "@ + string_literal(mimic.name)
        + ",\n                fields: vec!["@ + joined(field_data_texts(mimic.fields), ", "@)
        + "],\n            }"@
}

/// The record type of one variant, and its `Default`.
pub open spec fn record_text(enum_name: Seq<char>, mimic: VariantMimicView) -> Seq<char> {
    let name = record_name(enum_name, mimic.name);
    let types = outer_types(mimic.fields);
    "pub struct "@ + name + " {\n    pub meta: MimicMetadata,\n    pub instance: "@
        + instance_type_text(types) + ",\n}\n\nimpl Default for "@ + name
        + " {\n    fn default() -> Self {\n        "@ + name + " {\n            meta: "@
        + metadata_text(mimic) + ",\n            instance: "@ + instance_value_text(types)
        + ",\n        }\n    }\n}\n"@
}

/// The record types of the variants, in order.
pub open spec fn record_texts(enum_name: Seq<char>, mimics: Seq<VariantMimicView>) -> Seq<
    Seq<char>,
> {
    Seq::new(mimics.len(), |i: int| record_text(enum_name, mimics[i]))
}

/// One case of the mirroring enum: the bare name for a variant without
/// fields, else the name with the record inside.
pub open spec fn case_text(enum_name: Seq<char>, mimic: VariantMimicView) -> Seq<char> {
    let name = record_name(enum_name, mimic.name);
    if mimic.fields.len() == 0 {
        name + ","@
    } else {
        name + " { inner: "@ + name + " },"@
    }
}

/// The cases of the mirroring enum, in order.
pub open spec fn case_texts(enum_name: Seq<char>, mimics: Seq<VariantMimicView>) -> Seq<
    Seq<char>,
> {
    Seq::new(mimics.len(), |i: int| case_text(enum_name, mimics[i]))
}

/// The mirroring enum: one case for each variant, the first being the default.
pub open spec fn enum_text(enum_name: Seq<char>, mimics: Seq<VariantMimicView>) -> Seq<char> {
    "#[derive(Default)]\npub enum Mimic"@ + enum_name + " {\n    #[default]\n    "@ + joined(
        case_texts(enum_name, mimics),
        "\n    "@,
    ) + "\n}\n"@
}

/// The conversion of one record from a list of strings: the tuple parsed
/// from the list, and on success the record made of the variant's
/// description and that tuple.
pub open spec fn try_from_text(enum_name: Seq<char>, mimic: VariantMimicView) -> Seq<char> {
    let name = record_name(enum_name, mimic.name);
    "impl TryFrom<Vec<String>> for "@ + name
        + " {\n    type Error = &'static str;\n\n    fn try_from(value: Vec<String>) -> Result<Self, Self::Error> {\n        let instance = "@
        + tuple_type_text(outer_types(mimic.fields), true)
        + "::try_from(value)?;\n        Ok("@ + name + " {\n            meta: "@
        + metadata_text(mimic) + ",\n            instance,\n        })\n    }\n}\n"@
}

/// The conversions of the records, in order.
pub open spec fn try_from_texts(enum_name: Seq<char>, mimics: Seq<VariantMimicView>) -> Seq<
    Seq<char>,
> {
    Seq::new(mimics.len(), |i: int| try_from_text(enum_name, mimics[i]))
}

/// The records of a list of variants as plain text.
pub open spec fn mimic_views(mimics: Seq<VariantMimic>) -> Seq<VariantMimicView> {
    mimics.map_values(|m: VariantMimic| m@)
}

/// The outer types of the fields, in order.
pub fn outer_types_of(fields: &Vec<FieldParts>) -> (out: Vec<String>)
    ensures
        views(out@) == outer_types(field_views(fields@)),
{
    let mut out: Vec<String> = Vec::new();
    let mut i: usize = 0;
    while i < fields.len()
        invariant
            i <= fields.len(),
            views(out@).len() == i,
            forall|k: int| 0 <= k < i ==> views(out@)[k] == fields@[k].outer_type@,
        decreases fields.len() - i,
    {
        push_text(&mut out, fields[i].outer_type.clone());
        i = i + 1;
    }
    assert(views(out@) =~= outer_types(field_views(fields@)));
    out
}

/// The expressions that build the descriptions of the fields, in order.
pub fn build_mimic_field_from_parts(mimic_fields: &Vec<FieldParts>) -> (out: Vec<String>)
    ensures
        views(out@) == field_data_texts(field_views(mimic_fields@)),
{
    let mut texts: Vec<String> = Vec::new();
    let mut i: usize = 0;
    while i < mimic_fields.len()
        invariant
            i <= mimic_fields.len(),
            views(texts@).len() == i,
            forall|k: int|
                0 <= k < i ==> views(texts@)[k] == field_data_text(mimic_fields@[k]@),
        decreases mimic_fields.len() - i,
    {
        let field = &mimic_fields[i];
        let mut literals: Vec<String> = Vec::new();
        let mut k: usize = 0;
        while k < field.inner_type_list.len()
            invariant
                k <= field.inner_type_list.len(),
                views(literals@).len() == k,
                forall|m: int|
                    0 <= m < k ==> views(literals@)[m] == type_argument_literals(
                        views(field.inner_type_list@),
                    )[m],
            decreases field.inner_type_list.len() - k,
        {
            let mut literal = string_literal_of(field.inner_type_list[k].as_str());
            literal.append(",");
            assert(views(field.inner_type_list@)[k as int] == field.inner_type_list@[k as int]@);
            push_text(&mut literals, literal);
            k = k + 1;
        }
        assert(views(literals@) =~= type_argument_literals(views(field.inner_type_list@)));
        let mut text = String::from_str("MimicFieldData { name: ");
        text.append(string_literal_of(field.name.as_str()).as_str());
        text.append(", type_: ");
        text.append(string_literal_of(field.outer_type.as_str()).as_str());
        text.append(", type_arguments: vec![");
        text.append(join(&literals, " ").as_str());
        text.append("] }");
        push_text(&mut texts, text);
        i = i + 1;
    }
    assert(views(texts@) =~= field_data_texts(field_views(mimic_fields@)));
    texts
}

/// The tuple type of the family applied to `types`.
pub fn tuple_type_source(types: &Vec<String>, turbofish: bool) -> (out: String)
    ensures
        out@ == tuple_type_text(views(types@), turbofish),
{
    let mut out = String::new();
    push_arg_name(&mut out, types.len());
    if turbofish {
        out.append("::<");
    } else {
        out.append("<");
    }
    out.append(join(types, ", ").as_str());
    out.append(">");
    assert(out@ =~= tuple_type_text(views(types@), turbofish));
    out
}

/// The type of the field `instance`.
pub fn instance_type_source(types: &Vec<String>) -> (out: String)
    ensures
        out@ == instance_type_text(views(types@)),
{
    if types.len() == 0 {
        let mut out = String::new();
        push_arg_name(&mut out, 0);
        assert(out@ =~= arg_name(0));
        out
    } else {
        tuple_type_source(types, false)
    }
}

/// The placeholder tuple of a fresh record.
pub fn instance_value_source(types: &Vec<String>) -> (out: String)
    ensures
        out@ == instance_value_text(views(types@)),
{
    if types.len() == 0 {
        let mut out = String::new();
        push_arg_name(&mut out, 0);
        out.append(" {}");
        assert(out@ =~= arg_name(0) + " {}"@);
        out
    } else if types.len() == 1 {
        let mut out = tuple_type_source(types, true);
        out.append(" { f0: ");
        out.append(types[0].as_str());
        out.append("::from_str(\"0\").unwrap() }");
        assert(views(types@)[0] == types@[0]@);
        out
    } else {
        let mut slots: Vec<String> = Vec::new();
        let mut j: usize = 0;
        while j < types.len()
            invariant
                j <= types.len(),
                views(slots@).len() == j,
                forall|k: int|
                    0 <= k < j ==> views(slots@)[k] == empty_slot_texts(types@.len() as nat)[k],
            decreases types.len() - j,
        {
            let mut slot = slot_name_of(j);
            slot.append(": \"\".into()");
            push_text(&mut slots, slot);
            j = j + 1;
        }
        assert(views(slots@) =~= empty_slot_texts(views(types@).len()));
        let mut out = tuple_type_source(types, true);
        out.append(" { ");
        out.append(join(&slots, ", ").as_str());
        out.append(" }");
        out
    }
}

/// The expression that builds the description of a variant.
pub fn metadata_source(mimic: &VariantMimic) -> (out: String)
    ensures
        out@ == metadata_text(mimic@),
{
    let mimic_fields = build_mimic_field_from_parts(&mimic.fields);
    let mut out = String::from_str("MimicMetadata {\n                name: ");
    out.append(string_literal_of(mimic.name.as_str()).as_str());
    out.append(",\n                fields: vec![");
    out.append(join(&mimic_fields, ", ").as_str());
    out.append("],\n            }");
    out
}

/// The record type of each variant and its `Default`, one text for each
/// variant, in order.
pub fn generate_mimic_struct_for_each_variant(
    mimics: &Vec<VariantMimic>,
    input_enum_name: &str,
) -> (parts: Vec<String>)
    ensures
        views(parts@) == record_texts(input_enum_name@, mimic_views(mimics@)),
{
    let mut parts: Vec<String> = Vec::new();
    let mut i: usize = 0;
    while i < mimics.len()
        invariant
            i <= mimics.len(),
            views(parts@).len() == i,
            forall|k: int|
                0 <= k < i ==> views(parts@)[k] == record_text(input_enum_name@, mimics@[k]@),
        decreases mimics.len() - i,
    {
        let mimic = &mimics[i];
        let name = record_name_of(input_enum_name, mimic.name.as_str());
        let types = outer_types_of(&mimic.fields);
        let mut part = String::from_str("pub struct ");
        part.append(name.as_str());
        part.append(" {\n    pub meta: MimicMetadata,\n    pub instance: ");
        part.append(instance_type_source(&types).as_str());
        part.append(",\n}\n\nimpl Default for ");
        part.append(name.as_str());
        part.append(" {\n    fn default() -> Self {\n        ");
        part.append(name.as_str());
        part.append(" {\n            meta: ");
        part.append(metadata_source(mimic).as_str());
        part.append(",\n            instance: ");
        part.append(instance_value_source(&types).as_str());
        part.append(",\n        }\n    }\n}\n");
        push_text(&mut parts, part);
        i = i + 1;
    }
    assert(views(parts@) =~= record_texts(input_enum_name@, mimic_views(mimics@)));
    parts
}

/// The mirroring enum, as a list of one text.
pub fn generate_mimic_enum(mimics: &Vec<VariantMimic>, input_enum_name: &str) -> (parts: Vec<
    String,
>)
    ensures
        views(parts@) == seq![enum_text(input_enum_name@, mimic_views(mimics@))],
{
    let mut cases: Vec<String> = Vec::new();
    let mut i: usize = 0;
    while i < mimics.len()
        invariant
            i <= mimics.len(),
            views(cases@).len() == i,
            forall|k: int|
                0 <= k < i ==> views(cases@)[k] == case_text(
                    input_enum_name@,
                    mimics@[k]@,
                ),
        decreases mimics.len() - i,
    {
        let mimic = &mimics[i];
        let mut case = record_name_of(input_enum_name, mimic.name.as_str());
        if mimic.fields.len() == 0 {
            case.append(",");
        } else {
            let name = record_name_of(input_enum_name, mimic.name.as_str());
            case.append(" { inner: ");
            case.append(name.as_str());
            case.append(" },");
        }
        push_text(&mut cases, case);
        i = i + 1;
    }
    assert(views(cases@) =~= case_texts(input_enum_name@, mimic_views(mimics@)));
    let mut text = String::from_str("#[derive(Default)]\npub enum Mimic");
    text.append(input_enum_name);
    text.append(" {\n    #[default]\n    ");
    text.append(join(&cases, "\n    ").as_str());
    text.append("\n}\n");
    let mut parts: Vec<String> = Vec::new();
    push_text(&mut parts, text);
    assert(views(parts@) =~= seq![enum_text(input_enum_name@, mimic_views(mimics@))]);
    parts
}

/// The conversion of each record from a list of strings, one text for each
/// variant, in order.
pub fn generate_mimic_try_from(mimics: &Vec<VariantMimic>, input_enum_name: &str) -> (parts: Vec<
    String,
>)
    ensures
        views(parts@) == try_from_texts(input_enum_name@, mimic_views(mimics@)),
{
    let mut parts: Vec<String> = Vec::new();
    let mut i: usize = 0;
    while i < mimics.len()
        invariant
            i <= mimics.len(),
            views(parts@).len() == i,
            forall|k: int|
                0 <= k < i ==> views(parts@)[k] == try_from_text(input_enum_name@, mimics@[k]@),
        decreases mimics.len() - i,
    {
        let mimic = &mimics[i];
        let name = record_name_of(input_enum_name, mimic.name.as_str());
        let types = outer_types_of(&mimic.fields);
        let mut part = String::from_str("impl TryFrom<Vec<String>> for ");
        part.append(name.as_str());
        part.append(
            " {\n    type Error = &'static str;\n\n    fn try_from(value: Vec<String>) -> Result<Self, Self::Error> {\n        let instance = ",
        );
        part.append(tuple_type_source(&types, true).as_str());
        part.append("::try_from(value)?;\n        Ok(");
        part.append(name.as_str());
        part.append(" {\n            meta: ");
        part.append(metadata_source(mimic).as_str());
        part.append(",\n            instance,\n        })\n    }\n}\n");
        push_text(&mut parts, part);
        i = i + 1;
    }
    assert(views(parts@) =~= try_from_texts(input_enum_name@, mimic_views(mimics@)));
    parts
}

/// Whether the declaration can be mirrored: it is an enum, and every field
/// of every variant has a name.
pub open spec fn mirrorable(ast: DeriveInput) -> bool {
    ast.data matches Data::Enum(variants) && forall|i: int, j: int|
        0 <= i < variants@.len() && 0 <= j < variants@[i].fields@.len() ==> (
        #[trigger] variants@[i].fields@[j]).ident is Some
}

/// The records of the variants of an enum, in the order of declaration.
pub open spec fn enum_mimics(variants: Seq<Variant>) -> Seq<VariantMimicView> {
    Seq::new(variants.len(), |i: int| variant_mimic(variants[i]))
}

/// Everything that mirrors the enum: the record types of its variants, then
/// the mirroring enum, then the records' conversions, each text followed by
/// an empty line.
pub open spec fn mimic_text(ast: DeriveInput) -> Seq<char> {
    let mimics = enum_mimics(ast.data->Enum_0@);
    joined(
        record_texts(ast.ident@, mimics) + seq![enum_text(ast.ident@, mimics)] + try_from_texts(
            ast.ident@,
            mimics,
        ),
        "\n"@,
    )
}

/// Whether the declaration can be mirrored.
pub fn can_mirror(ast: &DeriveInput) -> (ok: bool)
    ensures
        ok == mirrorable(*ast),
{
    match &ast.data {
        Data::Enum(variants) => {
            let mut i: usize = 0;
            while i < variants.len()
                invariant
                    i <= variants.len(),
                    ast.data == Data::Enum(*variants),
                    forall|a: int, b: int|
                        0 <= a < i && 0 <= b < variants@[a].fields@.len() ==> (
                        #[trigger] variants@[a].fields@[b]).ident is Some,
                decreases variants.len() - i,
            {
                let fields = &variants[i].fields;
                let mut j: usize = 0;
                while j < fields.len()
                    invariant
                        j <= fields.len(),
                        i < variants.len(),
                        ast.data == Data::Enum(*variants),
                        *fields == variants@[i as int].fields,
                        forall|b: int| 0 <= b < j ==> (#[trigger] fields@[b]).ident is Some,
                    decreases fields.len() - j,
                {
                    if fields[j].ident.is_none() {
                        assert(!(variants@[i as int].fields@[j as int].ident is Some));
                        return false;
                    }
                    j = j + 1;
                }
                i = i + 1;
            }
            true
        },
        _ => false,
    }
}

/// Everything that mirrors the enum `ast`, as one text.
pub fn impl_mimic_for_enum(ast: &DeriveInput) -> (out: String)
    requires
        mirrorable(*ast),
    ensures
        out@ == mimic_text(*ast),
{
    let mut mimics: Vec<VariantMimic> = Vec::new();
    match &ast.data {
        Data::Enum(variants) => {
            let mut i: usize = 0;
            while i < variants.len()
                invariant
                    i <= variants.len(),
                    mirrorable(*ast),
                    ast.data == Data::Enum(*variants),
                    mimics@.len() == i,
                    forall|k: int|
                        0 <= k < i ==> (#[trigger] mimics@[k])@ == variant_mimic(variants@[k]),
                decreases variants.len() - i,
            {
                let mimic = generate_mimic_from_variant(&variants[i]);
                mimics.push(mimic);
                i = i + 1;
            }
            assert(mimic_views(mimics@) =~= enum_mimics(variants@));
        },
        _ => {},
    }
    let name = ast.ident.as_str();
    let mut all: Vec<String> = generate_mimic_struct_for_each_variant(&mimics, name);
    let mut mirror = generate_mimic_enum(&mimics, name);
    let mut conversions = generate_mimic_try_from(&mimics, name);
    let ghost structs = views(all@);
    let ghost enums = views(mirror@);
    let ghost try_froms = views(conversions@);
    all.append(&mut mirror);
    assert(views(all@) =~= structs + enums);
    all.append(&mut conversions);
    assert(views(all@) =~= structs + enums + try_froms);
    join(&all, "\n")
}

/// Everything that mirrors the enum `input`, as one text.
pub fn generate_mimic_for(input: &DeriveInput) -> (out: String)
    requires
        mirrorable(*input),
    ensures
        out@ == mimic_text(*input),
{
    impl_mimic_for_enum(input)
}

} // verus!
