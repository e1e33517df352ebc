//! The failures of tuple parsing, and the message that goes with each.

use vstd::prelude::*;
use vstd::string::*;
use crate::text::{
    decimal, join, joined, letter, letter_of, marker_chars_of, marker_names, push_decimal,
    singleton_strings,
};
use crate::MAX_ARITY;

verus! {

/// Why a list of strings, or a comma-separated line, was not turned into a tuple.
#[derive(Clone, Copy, Debug, PartialEq, Eq, Structural)]
pub enum ParseError {
    /// The list does not have one string for each slot.
    ArityMismatch { expected: usize, actual: usize },
    /// A tuple without slots was asked of a line that is not empty.
    UnexpectedArguments,
    /// The line holds no token at all.
    EmptyTokenList { expected: usize },
    /// The line does not hold one token for each slot.
    TokenCountMismatch { expected: usize, actual: usize },
    /// The string for `slot` is not a value of the slot's type. `from_line`
    /// tells the comma-separated path from the list path.
    SlotParseFailure { slot: usize, arity: usize, from_line: bool },
}

/// The name of the tuple type with `arity` slots.
pub open spec fn arg_name(arity: nat) -> Seq<char> {
    "MimicArg"@ + decimal(arity)
}

/// The message for a list of the wrong length.
pub open spec fn arity_message(arity: nat) -> Seq<char> {
    if arity == 0 {
        "Non-zero list-length provided to MimicArg0 for conversion TypeFrom<Vec<String>>"@
    } else {
        "Insufficient list length provided to "@ + arg_name(arity)
            + " for conversion TryFrom<Vec<String>>"@
    }
}

/// The message for a line that is not empty, given to the tuple without slots.
pub open spec fn unexpected_arguments_message() -> Seq<char> {
    "FromStr for MimicArg0 expects no arguments"@
}

/// The message for a line without tokens.
pub open spec fn empty_line_message(arity: nat) -> Seq<char> {
    "No comma-separated list found in argument to `from_str` for "@ + arg_name(arity)
}

/// The message for a line with the wrong number of tokens.
pub open spec fn token_count_message(arity: nat) -> Seq<char> {
    "Invalid number of CSV arguments provided to `from_str` for "@ + arg_name(arity)
}

/// The message for a slot that failed on the list path.
pub open spec fn list_slot_message(slot: nat, arity: nat) -> Seq<char> {
    "Failed to parse `"@ + seq![letter(slot)] + "` in "@ + arg_name(arity) + "<"@ + joined(
        marker_names(arity),
        ","@,
    ) + ">"@
}

/// The message for a slot that failed on the comma-separated path.
pub open spec fn line_slot_message(slot: nat, arity: nat) -> Seq<char> {
    "Failed to parse argument "@ + decimal(slot) + " as generic type "@ + seq![letter(slot)]
        + " in "@ + arg_name(arity)
}

impl ParseError {
    /// Whether the failure has a message: every failure but that of a slot
    /// beyond the last marker letter, or of a tuple wider than the family.
    pub open spec fn wf(self) -> bool {
        self matches ParseError::SlotParseFailure { slot, arity, from_line } ==> slot
            < MAX_ARITY && arity <= MAX_ARITY
    }

    /// Whether the failure has a message.
    pub fn has_message(&self) -> (ok: bool)
        ensures
            ok == self.wf(),
    {
        match *self {
            ParseError::SlotParseFailure { slot, arity, from_line } => slot < MAX_ARITY && arity
                <= MAX_ARITY,
            _ => true,
        }
    }

    /// The text that describes the failure.
    pub open spec fn message_text(self) -> Seq<char> {
        match self {
            ParseError::ArityMismatch { expected, actual } => arity_message(expected as nat),
            ParseError::UnexpectedArguments => unexpected_arguments_message(),
            ParseError::EmptyTokenList { expected } => empty_line_message(expected as nat),
            ParseError::TokenCountMismatch { expected, actual } => token_count_message(
                expected as nat,
            ),
            ParseError::SlotParseFailure { slot, arity, from_line } => if from_line {
                line_slot_message(slot as nat, arity as nat)
            } else {
                list_slot_message(slot as nat, arity as nat)
            },
        }
    }

    /// The text that describes the failure.
    pub fn message(&self) -> (out: String)
        requires
            self.wf(),
        ensures
            out@ == self.message_text(),
    {
        let mut out = String::new();
        match *self {
            ParseError::ArityMismatch { expected, actual } => {
                push_arity_message(&mut out, expected);
            },
            ParseError::UnexpectedArguments => {
                out.append("FromStr for MimicArg0 expects no arguments");
            },
            ParseError::EmptyTokenList { expected } => {
                push_empty_line_message(&mut out, expected);
            },
            ParseError::TokenCountMismatch { expected, actual } => {
                push_token_count_message(&mut out, expected);
            },
            ParseError::SlotParseFailure { slot, arity, from_line } => {
                if from_line {
                    push_line_slot_message(&mut out, slot, arity);
                } else {
                    push_list_slot_message(&mut out, slot, arity);
                }
            },
        }
        assert(out@ =~= self.message_text());
        out
    }
}

/// Appends the name of the tuple type with `arity` slots.
pub fn push_arg_name(out: &mut String, arity: usize)
    ensures
        final(out)@ == old(out)@ + arg_name(arity as nat),
{
    out.append("MimicArg");
    push_decimal(out, arity);
    assert(out@ =~= old(out)@ + arg_name(arity as nat));
}

/// Appends the message for a list of the wrong length.
pub fn push_arity_message(out: &mut String, arity: usize)
    ensures
        final(out)@ == old(out)@ + arity_message(arity as nat),
{
    if arity == 0 {
        out.append(
            "Non-zero list-length provided to MimicArg0 for conversion TypeFrom<Vec<String>>",
        );
    } else {
        out.append("Insufficient list length provided to ");
        push_arg_name(out, arity);
        out.append(" for conversion TryFrom<Vec<String>>");
        assert(out@ =~= old(out)@ + arity_message(arity as nat));
    }
}

/// Appends the message for a line without tokens.
pub fn push_empty_line_message(out: &mut String, arity: usize)
    ensures
        final(out)@ == old(out)@ + empty_line_message(arity as nat),
{
    out.append("No comma-separated list found in argument to `from_str` for ");
    push_arg_name(out, arity);
    assert(out@ =~= old(out)@ + empty_line_message(arity as nat));
}

/// Appends the message for a line with the wrong number of tokens.
pub fn push_token_count_message(out: &mut String, arity: usize)
    ensures
        final(out)@ == old(out)@ + token_count_message(arity as nat),
{
    out.append("Invalid number of CSV arguments provided to `from_str` for ");
    push_arg_name(out, arity);
    assert(out@ =~= old(out)@ + token_count_message(arity as nat));
}

/// Appends the message for a slot that failed on the list path.
pub fn push_list_slot_message(out: &mut String, slot: usize, arity: usize)
    requires
        slot < MAX_ARITY,
        arity <= MAX_ARITY,
    ensures
        final(out)@ == old(out)@ + list_slot_message(slot as nat, arity as nat),
{
    out.append("Failed to parse `");
    out.push(letter_of(slot));
    out.append("` in ");
    push_arg_name(out, arity);
    out.append("<");
    let markers = singleton_strings(&marker_chars_of(arity));
    out.append(join(&markers, ",").as_str());
    out.append(">");
    assert(out@ =~= old(out)@ + list_slot_message(slot as nat, arity as nat));
}

/// Appends the message for a slot that failed on the comma-separated path.
pub fn push_line_slot_message(out: &mut String, slot: usize, arity: usize)
    requires
        slot < MAX_ARITY,
    ensures
        final(out)@ == old(out)@ + line_slot_message(slot as nat, arity as nat),
{
    out.append("Failed to parse argument ");
    push_decimal(out, slot);
    out.append(" as generic type ");
    out.push(letter_of(slot));
    out.append(" in ");
    push_arg_name(out, arity);
    assert(out@ =~= old(out)@ + line_slot_message(slot as nat, arity as nat));
}

} // verus!
