//! The attribute that asks for the tuple family: its argument is an integer
//! literal, the arity up to which the family is to be written.

use vstd::prelude::*;
use vstd::string::*;
use crate::args::{arg_family, define_mimic_arg_n};
use crate::numbers::{bounded_value, parse_unsigned};
use crate::text::{join, joined};
use crate::MAX_ARITY;

verus! {

/// Why an attribute's argument gave no family.
#[derive(Clone, Copy, Debug, PartialEq, Eq, Structural)]
pub enum DepthError {
    /// The argument is no integer literal.
    NotAnInteger,
    /// The literal's value is no number that `usize` holds.
    NotADepth,
    /// The literal asks for more slots than the family provides.
    LimitExceeded,
}

/// The value, in decimal digits, of the integer literal that `text` is, if
/// it is one.
pub uninterp spec fn int_literal_digits(text: Seq<char>) -> Option<Seq<char>>;

/// `syn::parse_str::<syn::LitInt>` reads the text as one integer literal,
/// and `LitInt::base10_digits` gives that literal's value in decimal
/// digits, whatever base, underscores and suffix it was written with.
#[verifier::external_body]
pub(crate) fn read_int_literal(text: &str) -> (digits: Option<String>)
    ensures
        match digits {
            Some(d) => int_literal_digits(text@) == Some(d@),
            None => int_literal_digits(text@) is None,
        },
{
    match syn::parse_str::<syn::LitInt>(text) {
        Ok(literal) => Some(literal.base10_digits().to_owned()),
        Err(_) => None,
    }
}

/// The definitions of the tuple family up to the arity `depth`, as one
/// text: those of each arity one after another, an empty line between them.
pub open spec fn family_text(depth: nat) -> Seq<char> {
    joined(arg_family(depth), "\n"@)
}

/// What the digits of a literal ask for: the family up to the arity that
/// they write, where they write a number that `usize` holds and that is no
/// more than the family's limit.
pub open spec fn family_of_digits(digits: Option<Seq<char>>) -> Result<Seq<char>, DepthError> {
    match digits {
        None => Err(DepthError::NotAnInteger),
        Some(d) => match bounded_value(d, false, 0, usize::MAX as int) {
            None => Err(DepthError::NotADepth),
            Some(depth) => if depth > MAX_ARITY {
                Err(DepthError::LimitExceeded)
            } else {
                Ok(family_text(depth as nat))
            },
        },
    }
}

/// What an attribute returned, as plain text.
pub open spec fn family_outcome(r: Result<String, DepthError>) -> Result<Seq<char>, DepthError> {
    match r {
        Ok(text) => Ok(text@),
        Err(e) => Err(e),
    }
}

/// The definitions of the tuple family up to the arity `depth`, as one text.
pub fn family_source(depth: usize) -> (out: String)
    requires
        depth <= MAX_ARITY,
    ensures
        out@ == family_text(depth as nat),
{
    let parts = define_mimic_arg_n(depth);
    join(&parts, "\n")
}

/// The family that the digits of a literal ask for.
pub fn family_for_digits(digits: Option<&str>) -> (r: Result<String, DepthError>)
    ensures
        family_outcome(r) == family_of_digits(
            match digits {
                Some(d) => Some(d@),
                None => None,
            },
        ),
{
    match digits {
        None => Err(DepthError::NotAnInteger),
        Some(d) => match parse_unsigned(d, usize::MAX as u128) {
            None => Err(DepthError::NotADepth),
            Some(depth) => if depth > MAX_ARITY as u128 {
                Err(DepthError::LimitExceeded)
            } else {
                Ok(family_source(depth as usize))
            },
        },
    }
}

/// The family that the attribute's argument `attr` asks for.
pub fn mimic_arg_n(attr: &str) -> (r: Result<String, DepthError>)
    ensures
        family_outcome(r) == family_of_digits(int_literal_digits(attr@)),
{
    match read_int_literal(attr) {
        Some(digits) => family_for_digits(Some(digits.as_str())),
        None => family_for_digits(None),
    }
}

} // verus!
