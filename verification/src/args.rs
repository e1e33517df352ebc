//! Source text of the tuple family: one record type for each arity, with its
//! conversion from a list of strings and from a comma-separated line.

use vstd::prelude::*;
use vstd::string::*;
use crate::errors::{arg_name, arity_message, empty_line_message, token_count_message};
use crate::errors::{push_arg_name, push_arity_message, push_empty_line_message};
use crate::errors::push_token_count_message;
use crate::text::{decimal, join, joined, push_decimal, push_text, singleton_strings, singletons};
use crate::text::{marker_chars, marker_chars_of, marker_names, slot_names, slot_names_of};
use crate::text::{string_literal, string_literal_of, views};
use crate::MAX_ARITY;

verus! {

/// The definitions for the tuple without slots.
pub const ARG0_SOURCE: &'static str = "use std::{fmt::Debug, str::FromStr};\n\
\n\
#[derive(Default)]\n\
pub struct MimicArg0 {}\n\
\n\
impl TryFrom<Vec<String>> for MimicArg0 {\n    \
    type Error = &'static str;\n    \
    fn try_from(value: Vec<String>) -> Result<Self, Self::Error> {\n        \
        if value.len() != 0usize {\n            \
            return Err(\"Non-zero list-length provided to MimicArg0 for conversion TypeFrom<Vec<String>>\");\n        \
        }\n        \
        return Ok(MimicArg0::default());\n    \
    }\n\
}\n\
\n\
impl FromStr for MimicArg0 {\n    \
    type Err = &'static str;\n\
\n    \
    fn from_str(s: &str) -> Result<Self, Self::Err> {\n        \
        if !s.is_empty() {\n            \
            return Err(\"FromStr for MimicArg0 expects no arguments\");\n        \
        }\n        \
        return Ok(MimicArg0::default());\n    \
    }\n\
}\n";

/// What stands between the header of the conversion from a list and the test
/// of the list's length.
pub const TRYFROM_OPENING: &'static str = "    type Error = &'static str;\n\
\n    \
    fn try_from(input: Vec<String>) -> Result<Self, Self::Error> {\n        \
        if input.len() != ";

/// What stands between the header of the conversion from a line and the test
/// for a line without tokens.
pub const FROMSTR_OPENING: &'static str = "    type Err = &'static str;\n\
\n    \
    fn from_str(input: &str) -> Result<Self, Self::Err> {\n        \
        let csv = input\n            \
            .split(\",\")\n            \
            .filter_map(|s: &str| {\n                \
                let t = s.trim();\n                \
                if !t.is_empty() {\n                    \
                    Some(t)\n                \
                } else {\n                    \
                    None\n                \
                }\n            \
            })\n            \
            .collect::<Vec<&str>>();\n        \
        if csv.is_empty() {\n            \
            return Err(";

/// The message, inside the nested conversion, for the slot at `index`.
pub open spec fn nested_slot_message(index: int, chars: Seq<char>, name: Seq<char>) -> Seq<char> {
    "Failed to parse `"@ + seq![chars[index]] + "` in "@ + name + "<"@ + joined(
        singletons(chars),
        ","@,
    ) + ">"@
}

/// The statements that parse the slots from `total - n` on, one inside the
/// other: each goes on to the next slot when its own string parses and
/// returns the slot's message when it does not; the innermost returns the
/// record. Nothing where there are fewer names than slots.
pub open spec fn tryfrom_calls(
    total: nat,
    n: nat,
    items: Seq<Seq<char>>,
    chars: Seq<char>,
    markers: Seq<Seq<char>>,
    name: Seq<char>,
) -> Seq<Seq<char>>
    decreases n,
{
    if items.len() < total {
        Seq::<Seq<char>>::empty()
    } else if n == 0 {
        seq!["return Ok("@ + name + " { "@ + joined(items, ", "@) + " });"@]
    } else {
        let index = total - n;
        seq![
            "if let Ok("@ + items[index] + ") = input["@ + decimal(index as nat)
                + "usize].parse::<"@ + markers[index] + ">() { "@ + joined(
                tryfrom_calls(total, (n - 1) as nat, items, chars, markers, name),
                ""@,
            ) + " } return Err("@ + string_literal(nested_slot_message(index, chars, name))
                + ");"@,
        ]
    }
}

/// The statements that parse the slots from `total - n` on, one inside the other.
pub fn generate_recursive_tryfrom_parsing_calls(
    total: usize,
    n: usize,
    item_list: &Vec<String>,
    generics_as_chars: &Vec<char>,
    generics_as_markers: &Vec<String>,
    struct_name: &String,
) -> (out: Vec<String>)
    requires
        item_list.len() >= total ==> n <= total,
        item_list.len() >= total && n > 0 ==> generics_as_chars.len() >= total
            && generics_as_markers.len() >= total,
    ensures
        views(out@) == tryfrom_calls(
            total as nat,
            n as nat,
            views(item_list@),
            generics_as_chars@,
            views(generics_as_markers@),
            struct_name@,
        ),
    decreases n,
{
    let mut output: Vec<String> = Vec::new();
    assert(views(output@) =~= Seq::<Seq<char>>::empty());
    if item_list.len() < total {
        return output;
    }
    if n == 0 {
        let mut text = String::from_str("return Ok(");
        text.append(struct_name.as_str());
        text.append(" { ");
        text.append(join(item_list, ", ").as_str());
        text.append(" });");
        push_text(&mut output, text);
    } else {
        let list_index = total - n;
        let generics_list = singleton_strings(generics_as_chars);
        let generics_joined = join(&generics_list, ",");
        let mut error_msg = String::from_str("Failed to parse `");
        error_msg.append(generics_list[list_index].as_str());
        error_msg.append("` in ");
        error_msg.append(struct_name.as_str());
        error_msg.append("<");
        error_msg.append(generics_joined.as_str());
        error_msg.append(">");
        assert(views(generics_list@)[list_index as int] == generics_list@[list_index as int]@);
        let nested = generate_recursive_tryfrom_parsing_calls(
            total,
            n - 1,
            item_list,
            generics_as_chars,
            generics_as_markers,
            struct_name,
        );
        let mut text = String::from_str("if let Ok(");
        text.append(item_list[list_index].as_str());
        text.append(") = input[");
        push_decimal(&mut text, list_index);
        text.append("usize].parse::<");
        text.append(generics_as_markers[list_index].as_str());
        text.append(">() { ");
        text.append(join(&nested, "").as_str());
        text.append(" } return Err(");
        text.append(string_literal_of(error_msg.as_str()).as_str());
        text.append(");");
        assert(views(item_list@)[list_index as int] == item_list@[list_index as int]@);
        assert(views(generics_as_markers@)[list_index as int]
            == generics_as_markers@[list_index as int]@);
        push_text(&mut output, text);
    }
    output
}

/// The message, inside the conversion from a line, for the slot at `index`
/// of a record with `count` slots.
pub open spec fn line_slot_text(index: int, chars: Seq<char>, count: nat) -> Seq<char> {
    "Failed to parse argument "@ + decimal(index as nat) + " as generic type "@ + seq![
        chars[index],
    ] + " in "@ + arg_name(count)
}

/// The initializer of the slot at `index` in the conversion from a line: the
/// token at that place, parsed, or the slot's message.
pub open spec fn fromstr_call(
    index: int,
    items: Seq<Seq<char>>,
    chars: Seq<char>,
    markers: Seq<Seq<char>>,
) -> Seq<char> {
    items[index] + ": csv["@ + decimal(index as nat) + "usize].parse::<"@ + markers[index]
        + ">().map_err(|_| "@ + string_literal(line_slot_text(index, chars, items.len()))
        + ")?,"@
}

/// The initializers of the first `i` slots, in order.
pub open spec fn fromstr_calls(
    i: nat,
    items: Seq<Seq<char>>,
    chars: Seq<char>,
    markers: Seq<Seq<char>>,
) -> Seq<Seq<char>> {
    Seq::new(i, |index: int| fromstr_call(index, items, chars, markers))
}

/// The initializers of the first `i` slots in the conversion from a line.
pub fn generate_recursive_fromstr_parsing_calls(
    i: usize,
    item_list: &Vec<String>,
    generics_as_chars: &Vec<char>,
    generics_as_markers: &Vec<String>,
) -> (out: Vec<String>)
    requires
        i <= item_list.len(),
        i <= generics_as_markers.len(),
        i <= generics_as_chars.len(),
    ensures
        views(out@) == fromstr_calls(
            i as nat,
            views(item_list@),
            generics_as_chars@,
            views(generics_as_markers@),
        ),
    decreases i,
{
    let mut output: Vec<String> = Vec::new();
    if i == 0 {
        assert(views(output@) =~= fromstr_calls(
            0,
            views(item_list@),
            generics_as_chars@,
            views(generics_as_markers@),
        ));
        return output;
    }
    let index = i - 1;
    let mut output = generate_recursive_fromstr_parsing_calls(
        i - 1,
        item_list,
        generics_as_chars,
        generics_as_markers,
    );
    let mut error_msg = String::from_str("Failed to parse argument ");
    push_decimal(&mut error_msg, index);
    error_msg.append(" as generic type ");
    error_msg.push(generics_as_chars[index]);
    error_msg.append(" in ");
    push_arg_name(&mut error_msg, item_list.len());
    assert(error_msg@ =~= line_slot_text(
        index as int,
        generics_as_chars@,
        views(item_list@).len(),
    ));
    let mut text = String::new();
    text.append(item_list[index].as_str());
    text.append(": csv[");
    push_decimal(&mut text, index);
    text.append("usize].parse::<");
    text.append(generics_as_markers[index].as_str());
    text.append(">().map_err(|_| ");
    text.append(string_literal_of(error_msg.as_str()).as_str());
    text.append(")?,");
    assert(views(item_list@)[index as int] == item_list@[index as int]@);
    assert(views(generics_as_markers@)[index as int] == generics_as_markers@[index as int]@);
    assert(text@ =~= fromstr_call(
        index as int,
        views(item_list@),
        generics_as_chars@,
        views(generics_as_markers@),
    ));
    push_text(&mut output, text);
    assert(views(output@) =~= fromstr_calls(
        i as nat,
        views(item_list@),
        generics_as_chars@,
        views(generics_as_markers@),
    ));
    output
}

/// The declaration of each slot: its name and its type.
pub open spec fn field_decls(items: Seq<Seq<char>>, markers: Seq<Seq<char>>) -> Seq<Seq<char>> {
    Seq::new(items.len(), |j: int| "pub "@ + items[j] + ": "@ + markers[j])
}

/// What each type parameter is asked to implement.
pub open spec fn slot_bounds(markers: Seq<Seq<char>>) -> Seq<Seq<char>> {
    Seq::new(markers.len(), |j: int| markers[j] + ": Debug + FromStr"@)
}

/// The declaration of the record type `name` with one field for each slot.
pub open spec fn struct_text(
    name: Seq<char>,
    items: Seq<Seq<char>>,
    markers: Seq<Seq<char>>,
) -> Seq<char> {
    "#[derive(Default)]\npub struct "@ + name + "<"@ + joined(markers, ", "@) + "> {\n    "@
        + joined(field_decls(items, markers), ",\n    "@) + "\n}\n"@
}

/// The header of an impl of `trait_name` for the record type, up to the
/// brace that opens its body.
pub open spec fn impl_header_text(
    trait_name: Seq<char>,
    name: Seq<char>,
    markers: Seq<Seq<char>>,
) -> Seq<char> {
    "impl<"@ + joined(markers, ", "@) + "> "@ + trait_name + " for "@ + name + "<"@ + joined(
        markers,
        ", "@,
    ) + ">\nwhere\n    "@ + joined(slot_bounds(markers), ",\n    "@) + "\n{\n"@
}

/// The conversion from a list of strings: the test of the list's length,
/// then the nested statements.
pub open spec fn tryfrom_impl_text(
    arity: nat,
    name: Seq<char>,
    markers: Seq<Seq<char>>,
    nested: Seq<Seq<char>>,
) -> Seq<char> {
    impl_header_text("TryFrom<Vec<String>>"@, name, markers) + TRYFROM_OPENING@ + decimal(arity)
        + "usize {\n            return Err("@ + string_literal(arity_message(arity))
        + ");\n        }\n        "@ + joined(nested, ""@) + "\n    }\n}\n"@
}

/// The conversion from a comma-separated line: the tokens, the two tests of
/// their number, then the record with one initializer for each slot.
pub open spec fn fromstr_impl_text(
    arity: nat,
    name: Seq<char>,
    markers: Seq<Seq<char>>,
    listed: Seq<Seq<char>>,
) -> Seq<char> {
    impl_header_text("FromStr"@, name, markers) + FROMSTR_OPENING@ + string_literal(
        empty_line_message(arity),
    ) + ");\n        }\n        if csv.len() != "@ + decimal(arity)
        + "usize {\n            return Err("@ + string_literal(token_count_message(arity))
        + ");\n        }\n        Ok("@ + name + " {\n            "@ + joined(
        listed,
        "\n            "@,
    ) + "\n        })\n    }\n}\n"@
}

/// The definitions for the tuple with `arity` slots, `arity` at least one:
/// the record type `MimicArg` followed by the arity, with the type
/// parameters `A`, `B`, ... and the fields `f0`, `f1`, ..., and its two conversions.
pub open spec fn arg_text(arity: nat) -> Seq<char> {
    let name = arg_name(arity);
    let items = slot_names(arity);
    let chars = marker_chars(arity);
    let markers = marker_names(arity);
    struct_text(name, items, markers) + "\n"@ + tryfrom_impl_text(
        arity,
        name,
        markers,
        tryfrom_calls(arity, arity, items, chars, markers, name),
    ) + "\n"@ + fromstr_impl_text(
        arity,
        name,
        markers,
        fromstr_calls(arity, items, chars, markers),
    )
}

/// The definitions of the family up to the arity `n`, one text for each arity.
pub open spec fn arg_family(n: nat) -> Seq<Seq<char>> {
    Seq::new(
        n + 1,
        |i: int|
            if i == 0 {
                ARG0_SOURCE@
            } else {
                arg_text(i as nat)
            },
    )
}

/// The declaration of each slot.
pub fn field_decls_of(items: &Vec<String>, markers: &Vec<String>) -> (out: Vec<String>)
    requires
        items.len() <= markers.len(),
    ensures
        views(out@) == field_decls(views(items@), views(markers@)),
{
    let mut out: Vec<String> = Vec::new();
    let mut j: usize = 0;
    while j < items.len()
        invariant
            j <= items.len() <= markers.len(),
            views(out@).len() == j,
            forall|k: int|
                0 <= k < j ==> views(out@)[k] == field_decls(views(items@), views(markers@))[k],
        decreases items.len() - j,
    {
        let mut text = String::from_str("pub ");
        text.append(items[j].as_str());
        text.append(": ");
        text.append(markers[j].as_str());
        assert(views(items@)[j as int] == items@[j as int]@);
        assert(views(markers@)[j as int] == markers@[j as int]@);
        push_text(&mut out, text);
        j = j + 1;
    }
    assert(views(out@) =~= field_decls(views(items@), views(markers@)));
    out
}

/// What each type parameter is asked to implement.
pub fn slot_bounds_of(markers: &Vec<String>) -> (out: Vec<String>)
    ensures
        views(out@) == slot_bounds(views(markers@)),
{
    let mut out: Vec<String> = Vec::new();
    let mut j: usize = 0;
    while j < markers.len()
        invariant
            j <= markers.len(),
            views(out@).len() == j,
            forall|k: int| 0 <= k < j ==> views(out@)[k] == slot_bounds(views(markers@))[k],
        decreases markers.len() - j,
    {
        let mut text = String::new();
        text.append(markers[j].as_str());
        text.append(": Debug + FromStr");
        assert(views(markers@)[j as int] == markers@[j as int]@);
        assert(text@ =~= markers@[j as int]@ + ": Debug + FromStr"@);
        push_text(&mut out, text);
        j = j + 1;
    }
    assert(views(out@) =~= slot_bounds(views(markers@)));
    out
}

/// The declaration of the record type.
pub fn struct_source(name: &str, items: &Vec<String>, markers: &Vec<String>) -> (out: String)
    requires
        items.len() <= markers.len(),
    ensures
        out@ == struct_text(name@, views(items@), views(markers@)),
{
    let mut out = String::from_str("#[derive(Default)]\npub struct ");
    out.append(name);
    out.append("<");
    out.append(join(markers, ", ").as_str());
    out.append("> {\n    ");
    out.append(join(&field_decls_of(items, markers), ",\n    ").as_str());
    out.append("\n}\n");
    out
}

/// The header of an impl of `trait_name` for the record type.
pub fn impl_header_source(trait_name: &str, name: &str, markers: &Vec<String>) -> (out: String)
    ensures
        out@ == impl_header_text(trait_name@, name@, views(markers@)),
{
    let generics = join(markers, ", ");
    let mut out = String::from_str("impl<");
    out.append(generics.as_str());
    out.append("> ");
    out.append(trait_name);
    out.append(" for ");
    out.append(name);
    out.append("<");
    out.append(generics.as_str());
    out.append(">\nwhere\n    ");
    out.append(join(&slot_bounds_of(markers), ",\n    ").as_str());
    out.append("\n{\n");
    out
}

/// The conversion from a list of strings.
pub fn tryfrom_impl_source(
    arity: usize,
    name: &str,
    markers: &Vec<String>,
    nested: &Vec<String>,
) -> (out: String)
    ensures
        out@ == tryfrom_impl_text(arity as nat, name@, views(markers@), views(nested@)),
{
    let mut message = String::new();
    push_arity_message(&mut message, arity);
    assert(message@ =~= arity_message(arity as nat));
    let mut out = impl_header_source("TryFrom<Vec<String>>", name, markers);
    out.append(TRYFROM_OPENING);
    push_decimal(&mut out, arity);
    out.append("usize {\n            return Err(");
    out.append(string_literal_of(message.as_str()).as_str());
    out.append(");\n        }\n        ");
    out.append(join(nested, "").as_str());
    out.append("\n    }\n}\n");
    out
}

/// The conversion from a comma-separated line.
pub fn fromstr_impl_source(
    arity: usize,
    name: &str,
    markers: &Vec<String>,
    listed: &Vec<String>,
) -> (out: String)
    ensures
        out@ == fromstr_impl_text(arity as nat, name@, views(markers@), views(listed@)),
{
    let mut no_tokens = String::new();
    push_empty_line_message(&mut no_tokens, arity);
    assert(no_tokens@ =~= empty_line_message(arity as nat));
    let mut invalid = String::new();
    push_token_count_message(&mut invalid, arity);
    assert(invalid@ =~= token_count_message(arity as nat));
    let mut out = impl_header_source("FromStr", name, markers);
    out.append(FROMSTR_OPENING);
    out.append(string_literal_of(no_tokens.as_str()).as_str());
    out.append(");\n        }\n        if csv.len() != ");
    push_decimal(&mut out, arity);
    out.append("usize {\n            return Err(");
    out.append(string_literal_of(invalid.as_str()).as_str());
    out.append(");\n        }\n        Ok(");
    out.append(name);
    out.append(" {\n            ");
    out.append(join(listed, "\n            ").as_str());
    out.append("\n        })\n    }\n}\n");
    out
}

/// The definitions for the tuple with `arity` slots.
pub fn arg_source(arity: usize) -> (out: String)
    requires
        1 <= arity <= MAX_ARITY,
    ensures
        out@ == arg_text(arity as nat),
{
    let mut name = String::new();
    push_arg_name(&mut name, arity);
    assert(name@ =~= arg_name(arity as nat));
    let generics_as_chars = marker_chars_of(arity);
    let generics_as_markers = singleton_strings(&generics_as_chars);
    let item_list = slot_names_of(arity);
    assert(views(item_list@).len() == item_list@.len());
    assert(views(generics_as_markers@).len() == generics_as_markers@.len());
    let nested = generate_recursive_tryfrom_parsing_calls(
        arity,
        arity,
        &item_list,
        &generics_as_chars,
        &generics_as_markers,
        &name,
    );
    let listed = generate_recursive_fromstr_parsing_calls(
        arity,
        &item_list,
        &generics_as_chars,
        &generics_as_markers,
    );
    let mut out = struct_source(name.as_str(), &item_list, &generics_as_markers);
    out.append("\n");
    out.append(
        tryfrom_impl_source(arity, name.as_str(), &generics_as_markers, &nested).as_str(),
    );
    out.append("\n");
    out.append(
        fromstr_impl_source(arity, name.as_str(), &generics_as_markers, &listed).as_str(),
    );
    out
}

/// The definitions of the family from the tuple without slots up to the
/// tuple with `n` slots, in that order, one text for each arity.
pub fn define_mimic_arg_n(n: usize) -> (parts: Vec<String>)
    requires
        n <= MAX_ARITY,
    ensures
        views(parts@) == arg_family(n as nat),
{
    let mut parts: Vec<String> = Vec::new();
    push_text(&mut parts, String::from_str(ARG0_SOURCE));
    let mut i: usize = 1;
    while i <= n
        invariant
            1 <= i <= n + 1,
            n <= MAX_ARITY,
            views(parts@).len() == i,
            forall|k: int| 0 <= k < i ==> views(parts@)[k] == arg_family(n as nat)[k],
        decreases n + 1 - i,
    {
        push_text(&mut parts, arg_source(i));
        i = i + 1;
    }
    assert(views(parts@) =~= arg_family(n as nat));
    parts
}

} // verus!
