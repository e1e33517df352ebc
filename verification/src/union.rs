//! The value that stands for one variant of an enum among all of them:
//! nothing more than the variant's name where the variant has no field, and
//! the variant's record where it has.

use vstd::prelude::*;
use vstd::string::*;
use crate::describe::{record_name, record_name_of, VariantMimic, VariantMimicView};
use crate::errors::ParseError;
use crate::record::{record_from_list, record_from_list_judged, MimicRecord, MimicRecordView};
use crate::text::views;
use crate::MAX_ARITY;

verus! {

/// One case of the mirror of an enum.
#[derive(Debug)]
pub enum Mimic {
    /// The case of a variant without fields.
    Empty { case: String },
    /// The case of a variant with fields, holding the variant's record.
    Holding { case: String, inner: MimicRecord },
}

/// A case as plain values.
pub enum MimicView {
    Empty { case: Seq<char> },
    Holding { case: Seq<char>, inner: MimicRecordView },
}

impl View for Mimic {
    type V = MimicView;

    open spec fn view(&self) -> MimicView {
        match *self {
            Mimic::Empty { case } => MimicView::Empty { case: case@ },
            Mimic::Holding { case, inner } => MimicView::Holding { case: case@, inner: inner@ },
        }
    }
}

/// The case that stands for the variant once the list `input` is taken for
/// its fields: the failure of the variant's record where the list gives
/// none, else the bare case for a variant without fields and the case
/// holding the record for any other.
pub open spec fn case_from_list(
    enum_name: Seq<char>,
    mimic: VariantMimicView,
    input: Seq<Seq<char>>,
) -> Result<MimicView, ParseError> {
    match record_from_list(mimic, input) {
        Err(e) => Err(e),
        Ok(record) => if mimic.fields.len() == 0 {
            Ok(MimicView::Empty { case: record_name(enum_name, mimic.name) })
        } else {
            Ok(MimicView::Holding { case: record_name(enum_name, mimic.name), inner: record })
        },
    }
}

/// As `case_from_list`, the verdicts of the deferred slots' owners counted.
pub open spec fn case_from_list_judged(
    enum_name: Seq<char>,
    mimic: VariantMimicView,
    input: Seq<Seq<char>>,
    verdicts: Seq<bool>,
) -> Result<MimicView, ParseError> {
    match record_from_list_judged(mimic, input, verdicts) {
        Err(e) => Err(e),
        Ok(record) => if mimic.fields.len() == 0 {
            Ok(MimicView::Empty { case: record_name(enum_name, mimic.name) })
        } else {
            Ok(MimicView::Holding { case: record_name(enum_name, mimic.name), inner: record })
        },
    }
}

/// What a conversion returned, with the case as plain values.
pub open spec fn case_outcome(r: Result<Mimic, ParseError>) -> Result<MimicView, ParseError> {
    match r {
        Ok(case) => Ok(case@),
        Err(e) => Err(e),
    }
}

impl Mimic {
    /// The name of the case: the enum's name followed by the variant's.
    pub fn case_name(&self) -> (name: &String)
        ensures
            name@ == match self@ {
                MimicView::Empty { case } => case,
                MimicView::Holding { case, inner } => case,
            },
    {
        match self {
            Mimic::Empty { case } => case,
            Mimic::Holding { case, inner } => case,
        }
    }

    /// The case that an enum's mirror starts from: that of its first
    /// variant, which has no field.
    pub fn default_for(enum_name: &str, mimics: &Vec<VariantMimic>) -> (case: Mimic)
        requires
            mimics.len() > 0,
            mimics@[0].fields.len() == 0,
        ensures
            case@ == (MimicView::Empty { case: record_name(enum_name@, mimics@[0].name@) }),
    {
        Mimic::Empty { case: record_name_of(enum_name, mimics[0].name.as_str()) }
    }

    /// The case of the variant `mimic`, its fields taken from the list `value`.
    pub fn try_from(enum_name: &str, mimic: &VariantMimic, value: Vec<String>) -> (r: Result<
        Mimic,
        ParseError,
    >)
        requires
            mimic.fields.len() <= MAX_ARITY,
        ensures
            case_outcome(r) == case_from_list(enum_name@, mimic@, views(value@)),
    {
        match MimicRecord::try_from(mimic, value) {
            Err(e) => Err(e),
            Ok(inner) => {
                let case = record_name_of(enum_name, mimic.name.as_str());
                if mimic.fields.len() == 0 {
                    Ok(Mimic::Empty { case })
                } else {
                    Ok(Mimic::Holding { case, inner })
                }
            },
        }
    }

    /// The case of the variant `mimic`, its fields taken from the list
    /// `value`, where the owner of each field whose type is deferred has said
    /// whether the field's string is a value of that type.
    pub fn try_from_judged(
        enum_name: &str,
        mimic: &VariantMimic,
        value: Vec<String>,
        verdicts: &Vec<bool>,
    ) -> (r: Result<Mimic, ParseError>)
        requires
            mimic.fields.len() <= MAX_ARITY,
            verdicts.len() == mimic.fields.len(),
        ensures
            case_outcome(r) == case_from_list_judged(
                enum_name@,
                mimic@,
                views(value@),
                verdicts@,
            ),
    {
        match MimicRecord::try_from_judged(mimic, value, verdicts) {
            Err(e) => Err(e),
            Ok(inner) => {
                let case = record_name_of(enum_name, mimic.name.as_str());
                if mimic.fields.len() == 0 {
                    Ok(Mimic::Empty { case })
                } else {
                    Ok(Mimic::Holding { case, inner })
                }
            },
        }
    }
}

} // verus!
