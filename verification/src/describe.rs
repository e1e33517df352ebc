//! What is recorded of a variant: its name, and for each field the name,
//! the outer type and the types that the outer type wraps.

use vstd::prelude::*;
use vstd::string::*;
use crate::syntax::{canonical_name, extract_type, lemma_name_of_well_formed_type, Field, Variant};
use crate::laws::{law_pieces_join_back, lemma_first_piece};
use crate::text::{joined, push_text, split, split_text, views};

verus! {

/// Whether `name` is one of the scalar types that a field may have as it
/// stands: an integer type, a floating-point type, `bool`, a string type,
/// or the unit type.
pub open spec fn is_primitive_name(name: Seq<char>) -> bool {
    ||| name == "u128"@
    ||| name == "i128"@
    ||| name == "u64"@
    ||| name == "i64"@
    ||| name == "usize"@
    ||| name == "isize"@
    ||| name == "f64"@
    ||| name == "u32"@
    ||| name == "i32"@
    ||| name == "f32"@
    ||| name == "u16"@
    ||| name == "i16"@
    ||| name == "u8"@
    ||| name == "i8"@
    ||| name == "bool"@
    ||| name == "String"@
    ||| name == "&str"@
    ||| name == "()"@
}

/// Whether `name` is the list wrapper or the optional wrapper.
pub open spec fn is_wrapper_name(name: Seq<char>) -> bool {
    name == "Vec"@ || name == "Option"@
}

/// Whether `name` is `outer`, a dollar sign, and one of the scalar types.
pub open spec fn wraps_primitive(outer: Seq<char>, name: Seq<char>) -> bool {
    &&& name.len() > outer.len()
    &&& name.take(outer.len() as int) == outer
    &&& name[outer.len() as int] == '$'
    &&& is_primitive_name(name.skip(outer.len() as int + 1))
}

/// Whether the flat type name `name` counts as primitive: it is a scalar
/// type, or the list wrapper or the optional wrapper around a scalar type.
pub open spec fn canonical_is_primitive(name: Seq<char>) -> bool {
    is_primitive_name(name) || wraps_primitive("Vec"@, name) || wraps_primitive("Option"@, name)
}

/// No scalar type has a dollar sign in its name, and neither wrapper has.
pub proof fn lemma_names_hold_no_dollar(name: Seq<char>)
    requires
        is_primitive_name(name) || is_wrapper_name(name),
    ensures
        !name.contains('$'),
{
    reveal_strlit("u128");
    reveal_strlit("i128");
    reveal_strlit("u64");
    reveal_strlit("i64");
    reveal_strlit("usize");
    reveal_strlit("isize");
    reveal_strlit("f64");
    reveal_strlit("u32");
    reveal_strlit("i32");
    reveal_strlit("f32");
    reveal_strlit("u16");
    reveal_strlit("i16");
    reveal_strlit("u8");
    reveal_strlit("i8");
    reveal_strlit("bool");
    reveal_strlit("String");
    reveal_strlit("&str");
    reveal_strlit("()");
    reveal_strlit("Vec");
    reveal_strlit("Option");
    if name.contains('$') {
        let i = choose|i: int| 0 <= i < name.len() && name[i] == '$';
        assert(name[i] == '$');
    }
}

/// A name is a wrapper around a scalar type exactly if it has two pieces,
/// the first of them the wrapper and the second a scalar type.
pub proof fn lemma_wrapped_has_two_pieces(outer: Seq<char>, name: Seq<char>)
    requires
        is_wrapper_name(outer),
    ensures
        wraps_primitive(outer, name) <==> split(name, '$').len() == 2 && split(name, '$')[0]
            == outer && is_primitive_name(split(name, '$')[1]),
{
    let pieces = split(name, '$');
    law_pieces_join_back(name, '$');
    lemma_names_hold_no_dollar(outer);
    if wraps_primitive(outer, name) {
        let inner = name.skip(outer.len() as int + 1);
        lemma_names_hold_no_dollar(inner);
        let rest = seq!['$'] + inner;
        assert(name =~= outer + rest);
        lemma_first_piece(outer, rest, '$');
        let is_dollar = |c: char| c == '$';
        assert(name.filter(is_dollar).len() == 1) by {
            Seq::filter_distributes_over_add(outer, rest, is_dollar);
            Seq::filter_distributes_over_add(seq!['$'], inner, is_dollar);
            lemma_filter_of_none(outer, '$');
            lemma_filter_of_none(inner, '$');
            reveal(Seq::filter);
            assert(seq!['$'].drop_last() =~= Seq::<char>::empty());
            assert(seq!['$'].filter(is_dollar) =~= seq!['$']);
        }
        assert(pieces.len() == 2);
        assert(pieces.drop_last().len() == 1 && pieces.drop_last()[0] == pieces[0]);
        assert(joined(pieces.drop_last(), seq!['$']) == pieces[0]);
        assert(pieces.last() == pieces[1]);
        assert(joined(pieces, seq!['$']) == pieces[0] + seq!['$'] + pieces[1]);
        assert(pieces[1] =~= name.skip(outer.len() as int + 1));
    }
    if pieces.len() == 2 && pieces[0] == outer && is_primitive_name(pieces[1]) {
        assert(pieces.drop_last().len() == 1 && pieces.drop_last()[0] == pieces[0]);
        assert(joined(pieces.drop_last(), seq!['$']) == pieces[0]);
        assert(pieces.last() == pieces[1]);
        assert(joined(pieces, seq!['$']) == pieces[0] + seq!['$'] + pieces[1]);
        assert(name.take(outer.len() as int) =~= outer);
        assert(name.skip(outer.len() as int + 1) =~= pieces[1]);
    }
}

/// A text that does not hold a character holds it no times.
pub proof fn lemma_filter_of_none(s: Seq<char>, sep: char)
    requires
        !s.contains(sep),
    ensures
        s.filter(|c: char| c == sep).len() == 0,
{
    let hits = s.filter(|c: char| c == sep);
    if hits.len() > 0 {
        s.lemma_filter_contains_rev(|c: char| c == sep, hits[0]);
        assert(hits.contains(hits[0]));
    }
}

/// Every text has at least one piece.
pub proof fn lemma_split_nonempty(s: Seq<char>, sep: char)
    ensures
        split(s, sep).len() >= 1,
    decreases s.len(),
{
    if s.len() > 0 {
        lemma_split_nonempty(s.drop_last(), sep);
    }
}

/// The first piece of a text that does not begin with the separator has a
/// character.
pub proof fn lemma_first_piece_is_set(s: Seq<char>, sep: char)
    requires
        s.len() > 0,
        s[0] != sep,
    ensures
        split(s, sep).len() >= 1,
        split(s, sep).first().len() > 0,
    decreases s.len(),
{
    if s.len() == 1 {
        assert(s.drop_last() =~= Seq::<char>::empty());
    } else {
        lemma_first_piece_is_set(s.drop_last(), sep);
    }
}

/// Whether `name` is one of the scalar types.
pub fn is_primitive(name: &str) -> (b: bool)
    ensures
        b == is_primitive_name(name@),
{
    *name == *"u128" || *name == *"i128" || *name == *"u64" || *name == *"i64" || *name
        == *"usize" || *name == *"isize" || *name == *"f64" || *name == *"u32" || *name == *"i32" || *name == *"f32" || *name == *"u16" || *name == *"i16"
        || *name == *"u8" || *name == *"i8" || *name == *"bool" || *name == *"String" || *name
        == *"&str" || *name == *"()"
}

/// Whether the flat type name counts as primitive.
pub fn type_is_primitive(type_string: &String) -> (b: bool)
    ensures
        b == canonical_is_primitive(type_string@),
{
    if is_primitive(type_string.as_str()) {
        return true;
    }
    proof {
        lemma_wrapped_has_two_pieces("Vec"@, type_string@);
        lemma_wrapped_has_two_pieces("Option"@, type_string@);
    }
    let parts = split_text(type_string.as_str(), '$');
    assert(views(parts@).len() == parts@.len());
    if parts.len() != 2 {
        return false;
    }
    let outer = parts[0].as_str();
    let inner = parts[1].as_str();
    assert(outer@ == views(parts@)[0]);
    assert(inner@ == views(parts@)[1]);
    (*outer == *"Vec" || *outer == *"Option") && is_primitive(inner)
}

/// What is recorded of a field.
pub struct FieldParts {
    pub name: String,
    pub outer_type: String,
    pub inner_type_list: Vec<String>,
}

/// What is recorded of a variant.
pub struct VariantMimic {
    pub name: String,
    pub fields: Vec<FieldParts>,
}

/// A field's record as plain text.
pub struct FieldPartsView {
    pub name: Seq<char>,
    pub outer_type: Seq<char>,
    pub inner_type_list: Seq<Seq<char>>,
}

/// A variant's record as plain text.
pub struct VariantMimicView {
    pub name: Seq<char>,
    pub fields: Seq<FieldPartsView>,
}

impl View for FieldParts {
    type V = FieldPartsView;

    open spec fn view(&self) -> FieldPartsView {
        FieldPartsView {
            name: self.name@,
            outer_type: self.outer_type@,
            inner_type_list: views(self.inner_type_list@),
        }
    }
}

/// The records of a list of fields as plain text.
pub open spec fn field_views(fields: Seq<FieldParts>) -> Seq<FieldPartsView> {
    fields.map_values(|f: FieldParts| f@)
}

impl View for VariantMimic {
    type V = VariantMimicView;

    open spec fn view(&self) -> VariantMimicView {
        VariantMimicView { name: self.name@, fields: field_views(self.fields@) }
    }
}

/// The record of a field called `name` whose type has the flat name
/// `flat`. A primitive type is kept whole and wraps nothing. Any other
/// name is cut at its dollar signs: the first part is the outer type, the
/// rest are the types it wraps.
pub open spec fn field_parts(name: Seq<char>, flat: Seq<char>) -> FieldPartsView {
    if canonical_is_primitive(flat) {
        FieldPartsView {
            name: name,
            outer_type: flat,
            inner_type_list: Seq::<Seq<char>>::empty(),
        }
    } else {
        FieldPartsView {
            name: name,
            outer_type: split(flat, '$').first(),
            inner_type_list: split(flat, '$').skip(1),
        }
    }
}

/// The record of the variant `v`: its name and the records of its fields,
/// in the order of declaration.
pub open spec fn variant_mimic(v: Variant) -> VariantMimicView {
    VariantMimicView {
        name: v.ident@,
        fields: Seq::new(
            v.fields@.len(),
            |i: int| field_parts(v.fields@[i].ident->0@, canonical_name(v.fields@[i].ty)),
        ),
    }
}

/// The record of the field `f`.
pub fn digest_field_into_parts(f: &Field) -> (parts: FieldParts)
    requires
        f.ident is Some,
    ensures
        parts@ == field_parts(f.ident->0@, canonical_name(f.ty)),
        f.wf() ==> parts@.name.len() > 0 && parts@.outer_type.len() > 0,
{
    proof {
        if f.wf() {
            lemma_name_of_well_formed_type(f.ty);
            lemma_first_piece_is_set(canonical_name(f.ty), '$');
        }
    }
    let mut inner_type_list: Vec<String> = Vec::new();
    let mut type_string = extract_type(&f.ty);
    assert(views(inner_type_list@) =~= Seq::<Seq<char>>::empty());
    if !type_is_primitive(&type_string) {
        proof {
            lemma_split_nonempty(type_string@, '$');
        }
        let pieces = split_text(type_string.as_str(), '$');
        assert(views(pieces@).len() == pieces@.len());
        let mut k: usize = 1;
        while k < pieces.len()
            invariant
                1 <= k <= pieces.len(),
                views(inner_type_list@) == views(pieces@).subrange(1, k as int),
            decreases pieces.len() - k,
        {
            push_text(&mut inner_type_list, pieces[k].clone());
            k = k + 1;
            assert(views(inner_type_list@) =~= views(pieces@).subrange(1, k as int));
        }
        assert(views(pieces@).subrange(1, pieces.len() as int) =~= views(pieces@).skip(1));
        assert(pieces@[0]@ == views(pieces@).first());
        type_string = pieces[0].clone();
    }
    let field_name = match &f.ident {
        Some(ident) => ident.clone(),
        None => String::new(),
    };
    FieldParts { name: field_name, outer_type: type_string, inner_type_list }
}

/// The record of the variant `v`.
pub fn generate_mimic_from_variant(v: &Variant) -> (mimic: VariantMimic)
    requires
        forall|i: int| 0 <= i < v.fields@.len() ==> (#[trigger] v.fields@[i]).ident is Some,
    ensures
        mimic@ == variant_mimic(*v),
        v.wf() ==> mimic@.name.len() > 0 && forall|i: int|
            0 <= i < mimic@.fields.len() ==> (#[trigger] mimic@.fields[i]).name.len() > 0
                && mimic@.fields[i].outer_type.len() > 0,
{
    let variant_name = v.ident.clone();
    let mut fields: Vec<FieldParts> = Vec::new();
    let mut i: usize = 0;
    while i < v.fields.len()
        invariant
            i <= v.fields.len(),
            forall|k: int| 0 <= k < v.fields@.len() ==> (#[trigger] v.fields@[k]).ident is Some,
            fields@.len() == i,
            forall|k: int| 0 <= k < i ==> (#[trigger] fields@[k])@ == variant_mimic(*v).fields[k],
            v.wf() ==> forall|k: int|
                0 <= k < i ==> (#[trigger] fields@[k])@.name.len() > 0
                    && fields@[k]@.outer_type.len() > 0,
        decreases v.fields.len() - i,
    {
        assert(v.wf() ==> v.fields@[i as int].wf());
        let parts = digest_field_into_parts(&v.fields[i]);
        fields.push(parts);
        i = i + 1;
    }
    assert(field_views(fields@) =~= variant_mimic(*v).fields);
    assert(v.wf() ==> forall|k: int|
        0 <= k < fields@.len() ==> (#[trigger] field_views(fields@)[k]).name.len() > 0
            && field_views(fields@)[k].outer_type.len() > 0) by {
        if v.wf() {
            assert forall|k: int| 0 <= k < fields@.len() implies (#[trigger] field_views(
                fields@,
            )[k]).name.len() > 0 && field_views(fields@)[k].outer_type.len() > 0 by {
                assert(field_views(fields@)[k] == fields@[k]@);
            }
        }
    }
    VariantMimic { name: variant_name, fields }
}

/// The name of the record type for a variant of the enum `enum_name`.
pub open spec fn record_name(enum_name: Seq<char>, variant: Seq<char>) -> Seq<char> {
    enum_name + variant
}

/// The name of the record type for a variant.
pub fn record_name_of(enum_name: &str, variant: &str) -> (out: String)
    ensures
        out@ == record_name(enum_name@, variant@),
{
    let mut out = String::new();
    out.append(enum_name);
    out.append(variant);
    assert(out@ =~= record_name(enum_name@, variant@));
    out
}

} // verus!
