//! The record that mirrors one variant: the variant's description beside a
//! tuple of its fields' values.

use vstd::prelude::*;
use vstd::string::*;
use crate::describe::{field_views, FieldPartsView, VariantMimic, VariantMimicView};
use crate::errors::ParseError;
use crate::text::{push_text, views};
use crate::tuple::{kind_for, kind_of_type, parse_list, parse_list_judged, parse_slot};
use crate::tuple::parse_slot_of;
use crate::tuple::{MimicArg, Slot, SlotKind, SlotValue};
use crate::MAX_ARITY;

verus! {

/// The description of a field: its name, its type, and the types that the
/// type wraps.
#[derive(Debug)]
pub struct MimicFieldData {
    pub name: String,
    pub type_: String,
    pub type_arguments: Vec<String>,
}

/// The description of a variant: its name and its fields.
#[derive(Debug)]
pub struct MimicMetadata {
    pub name: String,
    pub fields: Vec<MimicFieldData>,
}

/// The mirror of a variant.
#[derive(Debug)]
pub struct MimicRecord {
    pub meta: MimicMetadata,
    pub instance: MimicArg,
}

impl View for MimicFieldData {
    type V = FieldPartsView;

    open spec fn view(&self) -> FieldPartsView {
        FieldPartsView {
            name: self.name@,
            outer_type: self.type_@,
            inner_type_list: views(self.type_arguments@),
        }
    }
}

/// The descriptions of a list of fields as plain text.
pub open spec fn field_data_views(fields: Seq<MimicFieldData>) -> Seq<FieldPartsView> {
    fields.map_values(|f: MimicFieldData| f@)
}

impl View for MimicMetadata {
    type V = VariantMimicView;

    open spec fn view(&self) -> VariantMimicView {
        VariantMimicView { name: self.name@, fields: field_data_views(self.fields@) }
    }
}

/// A record as plain values: the description and the slots.
pub struct MimicRecordView {
    pub meta: VariantMimicView,
    pub instance: Seq<Slot>,
}

impl View for MimicRecord {
    type V = MimicRecordView;

    open spec fn view(&self) -> MimicRecordView {
        MimicRecordView { meta: self.meta@, instance: self.instance@ }
    }
}

/// The kinds of a variant's slots: for each field the kind of its outer type.
pub open spec fn kinds_of(mimic: VariantMimicView) -> Seq<SlotKind> {
    Seq::new(mimic.fields.len(), |i: int| kind_for(mimic.fields[i].outer_type))
}

/// Whether a value of the kind can be made from a string as it stands.
pub open spec fn takes_any_text(kind: SlotKind) -> bool {
    kind is Text || kind is Deferred
}

/// The slots of a fresh record, where it has any. Without fields there is
/// no slot. A single slot holds what `"0"` is as a value of its kind. Of
/// several slots each holds the empty string, which asks that every kind
/// takes any string.
pub open spec fn placeholder(kinds: Seq<SlotKind>) -> Option<Seq<Slot>> {
    if kinds.len() == 1 {
        match parse_slot(kinds[0], "0"@) {
            Some(v) => Some(seq![v]),
            None => None,
        }
    } else if forall|i: int| 0 <= i < kinds.len() ==> takes_any_text(#[trigger] kinds[i]) {
        Some(Seq::new(kinds.len(), |i: int| parse_slot(kinds[i], ""@)->0))
    } else {
        None
    }
}

/// The fresh record of a variant that has a placeholder: the description
/// in full beside the placeholder.
pub open spec fn fresh_record(mimic: VariantMimicView) -> MimicRecordView {
    MimicRecordView { meta: mimic, instance: placeholder(kinds_of(mimic))->0 }
}

/// What making a record of the variant from the list `input` gives: the
/// description with the tuple parsed from the list, or the tuple's failure.
pub open spec fn record_from_list(mimic: VariantMimicView, input: Seq<Seq<char>>) -> Result<
    MimicRecordView,
    ParseError,
> {
    match parse_list(kinds_of(mimic), input) {
        Ok(slots) => Ok(MimicRecordView { meta: mimic, instance: slots }),
        Err(e) => Err(e),
    }
}

/// As `record_from_list`, the verdicts of the deferred slots' owners counted.
pub open spec fn record_from_list_judged(
    mimic: VariantMimicView,
    input: Seq<Seq<char>>,
    verdicts: Seq<bool>,
) -> Result<MimicRecordView, ParseError> {
    match parse_list_judged(kinds_of(mimic), input, verdicts) {
        Ok(slots) => Ok(MimicRecordView { meta: mimic, instance: slots }),
        Err(e) => Err(e),
    }
}

/// What a conversion returned, with the record as plain values.
pub open spec fn record_outcome(r: Result<MimicRecord, ParseError>) -> Result<
    MimicRecordView,
    ParseError,
> {
    match r {
        Ok(record) => Ok(record@),
        Err(e) => Err(e),
    }
}

/// The kinds of the variant's slots.
pub fn kinds_of_variant(mimic: &VariantMimic) -> (kinds: Vec<SlotKind>)
    ensures
        kinds@ == kinds_of(mimic@),
{
    let mut kinds: Vec<SlotKind> = Vec::new();
    let mut i: usize = 0;
    while i < mimic.fields.len()
        invariant
            i <= mimic.fields.len(),
            kinds@.len() == i,
            forall|k: int| 0 <= k < i ==> kinds@[k] == kind_for(mimic.fields@[k].outer_type@),
        decreases mimic.fields.len() - i,
    {
        kinds.push(kind_of_type(mimic.fields[i].outer_type.as_str()));
        i = i + 1;
    }
    assert(kinds@ =~= kinds_of(mimic@));
    kinds
}

/// The description of the variant, as a record carries it.
pub fn metadata_of(mimic: &VariantMimic) -> (meta: MimicMetadata)
    ensures
        meta@ == mimic@,
{
    let mut fields: Vec<MimicFieldData> = Vec::new();
    let mut i: usize = 0;
    while i < mimic.fields.len()
        invariant
            i <= mimic.fields.len(),
            fields@.len() == i,
            forall|k: int| 0 <= k < i ==> (#[trigger] fields@[k])@ == mimic.fields@[k]@,
        decreases mimic.fields.len() - i,
    {
        let field = &mimic.fields[i];
        let mut type_arguments: Vec<String> = Vec::new();
        let mut k: usize = 0;
        while k < field.inner_type_list.len()
            invariant
                k <= field.inner_type_list.len(),
                views(type_arguments@) == views(field.inner_type_list@).take(k as int),
            decreases field.inner_type_list.len() - k,
        {
            push_text(&mut type_arguments, field.inner_type_list[k].clone());
            k = k + 1;
            assert(views(type_arguments@) =~= views(field.inner_type_list@).take(k as int));
        }
        assert(views(type_arguments@) =~= views(field.inner_type_list@));
        fields.push(
            MimicFieldData {
                name: field.name.clone(),
                type_: field.outer_type.clone(),
                type_arguments,
            },
        );
        i = i + 1;
    }
    assert(field_data_views(fields@) =~= field_views(mimic.fields@));
    MimicMetadata { name: mimic.name.clone(), fields }
}

/// Whether a fresh record of the variant has slots to hold.
pub fn has_placeholder(mimic: &VariantMimic) -> (ok: bool)
    ensures
        ok == (placeholder(kinds_of(mimic@)) is Some),
{
    let kinds = kinds_of_variant(mimic);
    if kinds.len() == 1 {
        parse_slot_of(kinds[0], "0").is_some()
    } else {
        let mut i: usize = 0;
        while i < kinds.len()
            invariant
                i <= kinds.len(),
                kinds.len() != 1,
                kinds@ == kinds_of(mimic@),
                forall|k: int| 0 <= k < i ==> takes_any_text(#[trigger] kinds@[k]),
            decreases kinds.len() - i,
        {
            match kinds[i] {
                SlotKind::Text => {},
                SlotKind::Deferred => {},
                _ => {
                    assert(!takes_any_text(kinds@[i as int]));
                    return false;
                },
            }
            i = i + 1;
        }
        true
    }
}

impl MimicRecord {
    /// A fresh record of the variant: the description in full, and slots
    /// that only hold the place of values to come.
    pub fn default_for(mimic: &VariantMimic) -> (record: MimicRecord)
        requires
            placeholder(kinds_of(mimic@)) is Some,
        ensures
            record@ == fresh_record(mimic@),
    {
        let kinds = kinds_of_variant(mimic);
        let mut slots: Vec<SlotValue> = Vec::new();
        if kinds.len() == 1 {
            match parse_slot_of(kinds[0], "0") {
                Some(v) => {
                    slots.push(v);
                },
                None => {},
            }
            let instance = MimicArg { slots };
            assert(instance@ =~= placeholder(kinds@)->0);
            MimicRecord { meta: metadata_of(mimic), instance }
        } else {
            let mut i: usize = 0;
            while i < kinds.len()
                invariant
                    i <= kinds.len(),
                    forall|k: int| 0 <= k < kinds.len() ==> takes_any_text(#[trigger] kinds@[k]),
                    slots@.len() == i,
                    forall|k: int|
                        0 <= k < i ==> Some((#[trigger] slots@[k])@) == parse_slot(kinds@[k], ""@),
                decreases kinds.len() - i,
            {
                assert(takes_any_text(kinds@[i as int]));
                match parse_slot_of(kinds[i], "") {
                    Some(v) => {
                        slots.push(v);
                    },
                    None => {},
                }
                i = i + 1;
            }
            let instance = MimicArg { slots };
            assert(instance@ =~= placeholder(kinds@)->0);
            MimicRecord { meta: metadata_of(mimic), instance }
        }
    }

    /// The record of the variant made of the list `value`: one string for
    /// each field, in the order of declaration.
    pub fn try_from(mimic: &VariantMimic, value: Vec<String>) -> (r: Result<
        MimicRecord,
        ParseError,
    >)
        requires
            mimic.fields.len() <= MAX_ARITY,
        ensures
            record_outcome(r) == record_from_list(mimic@, views(value@)),
    {
        let kinds = kinds_of_variant(mimic);
        match MimicArg::try_from(&kinds, value) {
            Ok(instance) => Ok(MimicRecord { meta: metadata_of(mimic), instance }),
            Err(e) => Err(e),
        }
    }

    /// The record of the variant made of the list `value`, where the owner
    /// of each field whose type is deferred has said whether the field's
    /// string is a value of that type: `verdicts` holds one answer for each field.
    pub fn try_from_judged(mimic: &VariantMimic, value: Vec<String>, verdicts: &Vec<bool>) -> (r:
        Result<MimicRecord, ParseError>)
        requires
            mimic.fields.len() <= MAX_ARITY,
            verdicts.len() == mimic.fields.len(),
        ensures
            record_outcome(r) == record_from_list_judged(mimic@, views(value@), verdicts@),
    {
        let kinds = kinds_of_variant(mimic);
        match MimicArg::try_from_judged(&kinds, value, verdicts) {
            Ok(instance) => Ok(MimicRecord { meta: metadata_of(mimic), instance }),
            Err(e) => Err(e),
        }
    }
}

} // verus!
