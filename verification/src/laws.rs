//! What holds of the conversions whatever the kinds and the strings.

use vstd::prelude::*;
use crate::args::{arg_family, line_slot_text, nested_slot_message};
use crate::describe::{canonical_is_primitive, field_parts, VariantMimicView};
use crate::syntax::{arguments_suffix, canonical_name, Field, GenericArgument, PathArguments};
use crate::errors::{arg_name, line_slot_message, ParseError};
use crate::record::{fresh_record, kinds_of, placeholder, record_from_list, MimicRecordView};
use crate::numbers::{digits_value, is_digit, is_numeral, signed_value, unsigned_value};
use crate::text::{decimal, digit_char, joined, marker_chars, split, tokens, trim, trim_end};
use crate::text::{escaped, escaped_char, string_literal, unescaped};
use crate::text::{trim_start, trimmed_nonempty, white_space};
use crate::tuple::{all_accepted, first_judged_failure, judge_slot, lemma_all_accepted};
use crate::tuple::{lemma_first_failure, lemma_first_judged_failure, parse_line};
use crate::tuple::{parse_line_judged, parse_list, parse_list_judged, parse_slot};
use crate::tuple::{Slot, SlotKind};
use crate::MAX_ARITY;

verus! {

/// The pieces of a text hold no separator, there is one piece more than
/// there are separators, and the pieces with a separator between each two
/// are the text again.
pub proof fn law_pieces_join_back(s: Seq<char>, sep: char)
    ensures
        split(s, sep).len() == s.filter(|c: char| c == sep).len() + 1,
        forall|i: int|
            0 <= i < split(s, sep).len() ==> !(#[trigger] split(s, sep)[i]).contains(sep),
        joined(split(s, sep), seq![sep]) == s,
    decreases s.len(),
{
    let is_sep = |c: char| c == sep;
    if s.len() == 0 {
        assert(joined(split(s, sep), seq![sep]) =~= s);
    } else {
        let front = s.drop_last();
        let before = split(front, sep);
        law_pieces_join_back(front, sep);
        assert(s =~= front.push(s.last()));
        assert(front.push(s.last()).drop_last() =~= front);
        reveal(Seq::filter);
        assert(s.filter(is_sep) == if s.last() == sep {
            front.filter(is_sep).push(s.last())
        } else {
            front.filter(is_sep)
        });
        if s.last() == sep {
            let after = before.push(Seq::<char>::empty());
            assert(after.drop_last() =~= before);
            assert(joined(after, seq![sep]) =~= s);
        } else {
            let grown = before.last().push(s.last());
            let after = before.drop_last().push(grown);
            assert(after.drop_last() =~= before.drop_last());
            assert(!grown.contains(sep)) by {
                if grown.contains(sep) {
                    let k = choose|k: int| 0 <= k < grown.len() && grown[k] == sep;
                    assert(before.last()[k] == sep);
                    assert(before.last().contains(sep));
                }
            }
            assert forall|i: int| 0 <= i < after.len() implies !(#[trigger] after[i]).contains(
                sep,
            ) by {
                if i < after.len() - 1 {
                    assert(after[i] == before[i]);
                }
            }
            assert(joined(after, seq![sep]) =~= s);
        }
    }
}

/// A text that holds no separator is its own single piece.
pub proof fn law_text_without_separator_is_one_piece(s: Seq<char>, sep: char)
    requires
        !s.contains(sep),
    ensures
        split(s, sep) == seq![s],
{
    law_pieces_join_back(s, sep);
    let hits = s.filter(|c: char| c == sep);
    if hits.len() > 0 {
        s.lemma_filter_contains_rev(|c: char| c == sep, hits[0]);
        assert(hits.contains(hits[0]));
    }
    assert(split(s, sep).len() == 1);
    assert(split(s, sep) =~= seq![s]);
}

/// Where a text without the separator is followed by nothing, or by the
/// separator and anything after it, the text is the first piece of the whole.
pub proof fn lemma_first_piece(head: Seq<char>, rest: Seq<char>, sep: char)
    requires
        !head.contains(sep),
        rest.len() == 0 || rest[0] == sep,
    ensures
        split(head + rest, sep).len() >= 1,
        split(head + rest, sep).first() == head,
    decreases rest.len(),
{
    let s = head + rest;
    if rest.len() == 0 {
        assert(s =~= head);
        law_text_without_separator_is_one_piece(head, sep);
    } else {
        let shorter = rest.drop_last();
        assert(s.drop_last() =~= head + shorter);
        lemma_first_piece(head, shorter, sep);
        let before = split(head + shorter, sep);
        if s.last() != sep {
            assert(shorter.len() > 0);
            let front = head + shorter;
            assert(front[head.len() as int] == sep);
            front.lemma_filter_contains(|c: char| c == sep, head.len() as int);
            law_pieces_join_back(front, sep);
            assert(before.len() >= 2);
            assert(split(s, sep).first() == before.first());
        }
    }
}

/// What the type arguments add to a segment's name is nothing, or begins
/// with a dollar sign.
pub proof fn lemma_suffix_begins_with_dollar(args: Seq<GenericArgument>)
    ensures
        arguments_suffix(args).len() == 0 || arguments_suffix(args)[0] == '$',
    decreases args.len(),
{
    reveal_strlit("$");
    if args.len() > 0 {
        lemma_suffix_begins_with_dollar(args.drop_last());
    }
}

/// The record of a well-formed field has a name and an outer type. The
/// outer type is the field's whole flat type name where that is primitive,
/// and else the name of the last segment of the type's path.
pub proof fn law_well_formed_field_has_its_outer_type(f: Field)
    requires
        f.wf(),
    ensures
        field_parts(f.ident->0@, canonical_name(f.ty)).name == f.ident->0@,
        field_parts(f.ident->0@, canonical_name(f.ty)).outer_type.len() > 0,
        field_parts(f.ident->0@, canonical_name(f.ty)).outer_type == if canonical_is_primitive(
            canonical_name(f.ty),
        ) {
            canonical_name(f.ty)
        } else {
            (f.ty->Path_0)@.last().ident@
        },
{
    let last = (f.ty->Path_0)@.last();
    assert(last.wf());
    let suffix: Seq<char> = match last.arguments {
        PathArguments::AngleBracketed(args) => arguments_suffix(args@),
        _ => Seq::<char>::empty(),
    };
    match last.arguments {
        PathArguments::AngleBracketed(args) => {
            lemma_suffix_begins_with_dollar(args@);
        },
        _ => {},
    }
    assert(canonical_name(f.ty) == last.ident@ + suffix);
    lemma_first_piece(last.ident@, suffix, '$');
}

/// The record of a field loses nothing of its type's flat name: the outer
/// type and the wrapped types, with dollar signs between, are the name
/// again. Wrapped types are recorded only of a name that holds a dollar sign.
pub proof fn law_field_parts_keep_the_name(name: Seq<char>, flat: Seq<char>)
    ensures
        joined(
            seq![field_parts(name, flat).outer_type] + field_parts(name, flat).inner_type_list,
            seq!['$'],
        ) == flat,
        field_parts(name, flat).name == name,
        field_parts(name, flat).inner_type_list.len() > 0 ==> flat.contains('$'),
{
    let parts = field_parts(name, flat);
    if canonical_is_primitive(flat) {
        assert(seq![parts.outer_type] + parts.inner_type_list =~= seq![flat]);
    } else {
        law_pieces_join_back(flat, '$');
        let pieces = split(flat, '$');
        assert(seq![parts.outer_type] + parts.inner_type_list =~= pieces);
        let dollars = flat.filter(|c: char| c == '$');
        if parts.inner_type_list.len() > 0 {
            assert(dollars.len() > 0);
            flat.lemma_filter_contains_rev(|c: char| c == '$', dollars[0]);
            assert(dollars.contains(dollars[0]));
        }
    }
}

/// How a text is written inside a literal begins with how its first
/// character is written.
pub proof fn lemma_escaped_from_the_front(s: Seq<char>)
    requires
        s.len() > 0,
    ensures
        escaped(s) == escaped_char(s.first()) + escaped(s.skip(1)),
    decreases s.len(),
{
    if s.len() == 1 {
        assert(s.drop_last() =~= Seq::<char>::empty());
        assert(s.skip(1) =~= Seq::<char>::empty());
        assert(escaped(s) =~= escaped_char(s.first()) + escaped(s.skip(1)));
    } else {
        lemma_escaped_from_the_front(s.drop_last());
        assert(s.drop_last().skip(1) =~= s.skip(1).drop_last());
        assert(escaped(s) =~= escaped_char(s.first()) + escaped(s.skip(1)));
    }
}

/// A string literal denotes the text it was written for: what stands
/// between its quotes, read as the inside of a literal, is that text.
pub proof fn law_literal_reads_back(s: Seq<char>)
    ensures
        unescaped(escaped(s)) == s,
        string_literal(s).first() == '"',
        string_literal(s).last() == '"',
        string_literal(s).subrange(1, string_literal(s).len() - 1) == escaped(s),
    decreases s.len(),
{
    if s.len() > 0 {
        lemma_escaped_from_the_front(s);
        law_literal_reads_back(s.skip(1));
        let head = escaped_char(s.first());
        let rest = escaped(s.skip(1));
        let whole = head + rest;
        if head.len() == 2 {
            assert(whole.skip(2) =~= rest);
        } else {
            assert(whole.skip(1) =~= rest);
        }
        assert(unescaped(whole) =~= seq![s.first()] + s.skip(1));
        assert(seq![s.first()] + s.skip(1) =~= s);
    }
    let literal = string_literal(s);
    assert(literal.subrange(1, literal.len() - 1) =~= escaped(s));
}

/// What is trimmed neither begins nor ends with white space, and trimming
/// it again changes nothing.
pub proof fn law_trimmed_is_clean(s: Seq<char>)
    ensures
        trim(s).len() > 0 ==> !white_space(trim(s).first()) && !white_space(trim(s).last()),
        trim(trim(s)) == trim(s),
{
    lemma_trim_start(s);
    lemma_trim_end(trim_start(s));
    let t = trim(s);
    if t.len() > 0 {
        assert(t[0] == trim_start(s)[0]);
    }
    assert(trim_start(t) == t);
    assert(trim_end(t) == t);
}

/// What `trim_start` leaves does not begin with white space.
pub proof fn lemma_trim_start(s: Seq<char>)
    ensures
        trim_start(s).len() > 0 ==> !white_space(trim_start(s).first()),
    decreases s.len(),
{
    if s.len() > 0 && white_space(s[0]) {
        lemma_trim_start(s.skip(1));
    }
}

/// What `trim_end` leaves is the beginning of the text and does not end
/// with white space.
pub proof fn lemma_trim_end(s: Seq<char>)
    ensures
        trim_end(s).len() <= s.len(),
        trim_end(s) == s.take(trim_end(s).len() as int),
        trim_end(s).len() > 0 ==> !white_space(trim_end(s).last()),
    decreases s.len(),
{
    if s.len() > 0 && white_space(s.last()) {
        lemma_trim_end(s.drop_last());
        assert(s.drop_last().take(trim_end(s).len() as int) =~= s.take(trim_end(s).len() as int));
    } else {
        assert(s.take(s.len() as int) =~= s);
    }
}

/// Every token of a line has a character, and neither begins nor ends
/// with white space.
pub proof fn law_tokens_are_clean(line: Seq<char>, sep: char)
    ensures
        forall|i: int|
            0 <= i < tokens(line, sep).len() ==> {
                let token = #[trigger] tokens(line, sep)[i];
                token.len() > 0 && !white_space(token.first()) && !white_space(token.last())
            },
{
    lemma_kept_are_clean(split(line, sep));
}

/// The same of the pieces kept out of any list of pieces.
pub proof fn lemma_kept_are_clean(pieces: Seq<Seq<char>>)
    ensures
        forall|i: int|
            0 <= i < trimmed_nonempty(pieces).len() ==> {
                let token = #[trigger] trimmed_nonempty(pieces)[i];
                token.len() > 0 && !white_space(token.first()) && !white_space(token.last())
            },
    decreases pieces.len(),
{
    if pieces.len() > 0 {
        lemma_kept_are_clean(pieces.drop_last());
        law_trimmed_is_clean(pieces.last());
        let before = trimmed_nonempty(pieces.drop_last());
        let kept = trimmed_nonempty(pieces);
        assert forall|i: int| 0 <= i < kept.len() implies {
            let token = #[trigger] kept[i];
            token.len() > 0 && !white_space(token.first()) && !white_space(token.last())
        } by {
            if i < before.len() {
                assert(kept[i] == before[i]);
            } else {
                assert(kept[i] == trim(pieces.last()));
            }
        }
    }
}

/// The decimal numeral of a number is read back as that number.
pub proof fn law_decimal_reads_back(n: nat)
    ensures
        is_numeral(decimal(n)),
        digits_value(decimal(n)) == n,
        unsigned_value(decimal(n)) == Some(n),
        signed_value(decimal(n)) == Some(n as int),
    decreases n,
{
    if n < 10 {
        let d = decimal(n);
        assert(d.len() == 1);
        assert(d[0] == digit_char(n));
        assert(d.drop_last() =~= Seq::<char>::empty());
        assert(digits_value(d.drop_last()) == 0);
    } else {
        law_decimal_reads_back(n / 10);
        let d = decimal(n);
        assert(d.drop_last() =~= decimal(n / 10));
        assert(d.last() == digit_char(n % 10));
        assert forall|i: int| 0 <= i < d.len() implies is_digit(#[trigger] d[i]) by {
            if i < d.len() - 1 {
                assert(d[i] == decimal(n / 10)[i]);
            }
        }
    }
    assert(decimal(n)[0] != '+' && decimal(n)[0] != '-');
}

/// A list with one string for each slot, each string a value of its slot's
/// kind, gives a tuple, and each slot of the tuple holds the value of its string.
pub proof fn law_list_of_values_gives_the_tuple(kinds: Seq<SlotKind>, input: Seq<Seq<char>>)
    requires
        input.len() == kinds.len(),
        forall|i: int| 0 <= i < kinds.len() ==> parse_slot(kinds[i], input[i]) is Some,
    ensures
        parse_list(kinds, input) is Ok,
        parse_list(kinds, input)->Ok_0.len() == kinds.len(),
        forall|i: int|
            0 <= i < kinds.len() ==> Some(#[trigger] parse_list(kinds, input)->Ok_0[i])
                == parse_slot(kinds[i], input[i]),
{
    lemma_first_failure(kinds, input, kinds.len());
}

/// A list that gives a tuple has one string for each slot, and each of its
/// strings is a value of its slot's kind.
pub proof fn law_tuple_comes_from_values_only(kinds: Seq<SlotKind>, input: Seq<Seq<char>>)
    requires
        parse_list(kinds, input) is Ok,
    ensures
        input.len() == kinds.len(),
        forall|i: int| 0 <= i < kinds.len() ==> parse_slot(kinds[i], input[i]) is Some,
{
    lemma_first_failure(kinds, input, kinds.len());
}

/// A list with more or fewer strings than there are slots gives the
/// failure that names both numbers, whatever the strings are.
pub proof fn law_list_of_wrong_length_is_refused(kinds: Seq<SlotKind>, input: Seq<Seq<char>>)
    requires
        input.len() != kinds.len(),
    ensures
        parse_list(kinds, input) == Err::<Seq<Slot>, ParseError>(
            ParseError::ArityMismatch {
                expected: kinds.len() as usize,
                actual: input.len() as usize,
            },
        ),
{
}

/// Where a slot's string is no value of its kind, the failure names the
/// first such slot.
pub proof fn law_first_bad_slot_is_reported(kinds: Seq<SlotKind>, input: Seq<Seq<char>>, slot: int)
    requires
        input.len() == kinds.len(),
        0 <= slot < kinds.len(),
        parse_slot(kinds[slot], input[slot]) is None,
        forall|i: int| 0 <= i < slot ==> parse_slot(kinds[i], input[i]) is Some,
    ensures
        parse_list(kinds, input) == Err::<Seq<Slot>, ParseError>(
            ParseError::SlotParseFailure {
                slot: slot as usize,
                arity: kinds.len() as usize,
                from_line: false,
            },
        ),
{
    lemma_first_failure(kinds, input, kinds.len());
}

/// Every failure that a conversion gives for a tuple of the family is one
/// that `ParseError::message` describes, whatever the owners' verdicts.
pub proof fn law_failures_have_messages(
    kinds: Seq<SlotKind>,
    input: Seq<Seq<char>>,
    line: Seq<char>,
    verdicts: Seq<bool>,
)
    requires
        kinds.len() <= MAX_ARITY,
    ensures
        parse_list(kinds, input) is Err ==> parse_list(kinds, input)->Err_0.wf(),
        parse_line(kinds, line) is Err ==> parse_line(kinds, line)->Err_0.wf(),
        parse_list_judged(kinds, input, verdicts) is Err ==> parse_list_judged(
            kinds,
            input,
            verdicts,
        )->Err_0.wf(),
        parse_line_judged(kinds, line, verdicts) is Err ==> parse_line_judged(
            kinds,
            line,
            verdicts,
        )->Err_0.wf(),
{
    lemma_first_failure(kinds, input, kinds.len());
    lemma_first_failure(kinds, tokens(line, ','), kinds.len());
    lemma_first_judged_failure(kinds, input, verdicts, kinds.len());
    lemma_first_judged_failure(kinds, tokens(line, ','), verdicts, kinds.len());
}

/// With an owner who takes every string, the judged conversions are the
/// plain ones; and the verdicts given for slots that are not deferred
/// change nothing.
pub proof fn law_verdicts_count_for_deferred_slots_only(
    kinds: Seq<SlotKind>,
    input: Seq<Seq<char>>,
    line: Seq<char>,
    verdicts: Seq<bool>,
)
    requires
        verdicts.len() == kinds.len(),
        forall|i: int| 0 <= i < kinds.len() && kinds[i] is Deferred ==> verdicts[i],
    ensures
        parse_list_judged(kinds, input, verdicts) == parse_list(kinds, input),
        parse_line_judged(kinds, line, verdicts) == parse_line(kinds, line),
        parse_list_judged(kinds, input, all_accepted(kinds.len())) == parse_list(kinds, input),
        parse_line_judged(kinds, line, all_accepted(kinds.len())) == parse_line(kinds, line),
{
    lemma_all_accepted(kinds, input, kinds.len());
    lemma_all_accepted(kinds, tokens(line, ','), kinds.len());
    lemma_same_judgement(kinds, input, verdicts, all_accepted(kinds.len()), kinds.len());
    lemma_same_judgement(kinds, tokens(line, ','), verdicts, all_accepted(kinds.len()), kinds.len());
}

/// Two lists of verdicts that judge each of the first `upto` slots alike
/// find the same first failure.
pub proof fn lemma_same_judgement(
    kinds: Seq<SlotKind>,
    texts: Seq<Seq<char>>,
    first: Seq<bool>,
    second: Seq<bool>,
    upto: nat,
)
    requires
        forall|i: int|
            0 <= i < upto ==> judge_slot(kinds[i], texts[i], first[i]) == judge_slot(
                kinds[i],
                texts[i],
                second[i],
            ),
    ensures
        first_judged_failure(kinds, texts, first, upto) == first_judged_failure(
            kinds,
            texts,
            second,
            upto,
        ),
    decreases upto,
{
    if upto > 0 {
        lemma_same_judgement(kinds, texts, first, second, (upto - 1) as nat);
    }
}

/// A list with one string for each slot fails at the first slot whose
/// string is no value of its kind or whose owner has refused it, and gives
/// the tuple where there is no such slot.
pub proof fn law_first_refused_slot_is_reported(
    kinds: Seq<SlotKind>,
    input: Seq<Seq<char>>,
    verdicts: Seq<bool>,
    slot: int,
)
    requires
        input.len() == kinds.len(),
        0 <= slot < kinds.len(),
        judge_slot(kinds[slot], input[slot], verdicts[slot]) is None,
        forall|i: int| 0 <= i < slot ==> judge_slot(kinds[i], input[i], verdicts[i]) is Some,
    ensures
        parse_list_judged(kinds, input, verdicts) == Err::<Seq<Slot>, ParseError>(
            ParseError::SlotParseFailure {
                slot: slot as usize,
                arity: kinds.len() as usize,
                from_line: false,
            },
        ),
{
    lemma_first_judged_failure(kinds, input, verdicts, kinds.len());
}

/// For a tuple with at least one slot, a line with one token for each slot
/// gives a tuple exactly where the list of its tokens does, and then the
/// same tuple.
pub proof fn law_line_agrees_with_list(kinds: Seq<SlotKind>, line: Seq<char>)
    requires
        kinds.len() >= 1,
        tokens(line, ',').len() == kinds.len(),
    ensures
        parse_line(kinds, line) is Ok <==> parse_list(kinds, tokens(line, ',')) is Ok,
        parse_line(kinds, line) is Ok ==> parse_line(kinds, line)->Ok_0 == parse_list(
            kinds,
            tokens(line, ','),
        )->Ok_0,
{
}

/// For a tuple with at least one slot, a line without tokens is refused.
pub proof fn law_line_without_tokens_is_refused(kinds: Seq<SlotKind>, line: Seq<char>)
    requires
        kinds.len() >= 1,
        tokens(line, ',').len() == 0,
    ensures
        parse_line(kinds, line) == Err::<Seq<Slot>, ParseError>(
            ParseError::EmptyTokenList { expected: kinds.len() as usize },
        ),
{
}

/// The empty line has no token, so every tuple with a slot refuses it.
pub proof fn law_empty_line_is_refused(kinds: Seq<SlotKind>)
    requires
        kinds.len() >= 1,
    ensures
        tokens(Seq::<char>::empty(), ',').len() == 0,
        parse_line(kinds, Seq::<char>::empty()) is Err,
{
    let pieces = split(Seq::<char>::empty(), ',');
    assert(pieces.drop_last() =~= Seq::<Seq<char>>::empty());
    assert(trim(pieces.last()).len() == 0);
    assert(trimmed_nonempty(pieces.drop_last()).len() == 0);
    assert(trimmed_nonempty(pieces).len() == 0);
}

/// For a tuple with at least one slot, a line with more or fewer tokens
/// than there are slots is refused.
pub proof fn law_line_of_wrong_count_is_refused(kinds: Seq<SlotKind>, line: Seq<char>)
    requires
        kinds.len() >= 1,
        tokens(line, ',').len() != kinds.len(),
    ensures
        parse_line(kinds, line) is Err,
{
}

/// Two fresh records of one variant are the same record.
pub proof fn law_fresh_records_agree(
    mimic: VariantMimicView,
    first: MimicRecordView,
    second: MimicRecordView,
)
    requires
        first == fresh_record(mimic),
        second == fresh_record(mimic),
    ensures
        first == second,
        first.meta == mimic,
        placeholder(kinds_of(mimic)) is Some ==> Some(first.instance) == placeholder(
            kinds_of(mimic),
        ),
        placeholder(kinds_of(mimic)) is Some ==> first.instance.len() == mimic.fields.len(),
{
}

/// The family up to one arity is the beginning of the family up to any
/// greater arity: more slots add definitions and change none.
pub proof fn law_family_grows(n: nat, m: nat)
    requires
        n <= m,
    ensures
        arg_family(n).len() == n + 1,
        arg_family(m).take(n as int + 1) == arg_family(n),
{
    assert(arg_family(m).take(n as int + 1) =~= arg_family(n));
}

/// The record made of a list carries the variant's description unchanged,
/// and its slot for each field holds what the field's string is as a value
/// of the field's kind.
pub proof fn law_record_holds_the_parsed_values(mimic: VariantMimicView, input: Seq<Seq<char>>)
    requires
        record_from_list(mimic, input) is Ok,
    ensures
        record_from_list(mimic, input)->Ok_0.meta == mimic,
        input.len() == mimic.fields.len(),
        record_from_list(mimic, input)->Ok_0.instance.len() == mimic.fields.len(),
        forall|i: int|
            0 <= i < mimic.fields.len() ==> Some(
                #[trigger] record_from_list(mimic, input)->Ok_0.instance[i],
            ) == parse_slot(kinds_of(mimic)[i], input[i]),
{
    let kinds = kinds_of(mimic);
    lemma_first_failure(kinds, input, kinds.len());
}

/// The family's source text reports a slot that failed in the words of
/// `ParseError::message`, on the list path and on the line path.
pub proof fn law_source_reports_as_the_conversions_do(slot: nat, arity: nat)
    requires
        slot < arity <= MAX_ARITY,
    ensures
        nested_slot_message(slot as int, marker_chars(arity), arg_name(arity))
            == (ParseError::SlotParseFailure {
            slot: slot as usize,
            arity: arity as usize,
            from_line: false,
        }).message_text(),
        line_slot_text(slot as int, marker_chars(arity), arity) == (ParseError::SlotParseFailure {
            slot: slot as usize,
            arity: arity as usize,
            from_line: true,
        }).message_text(),
{
    assert(line_slot_text(slot as int, marker_chars(arity), arity)
        =~= line_slot_message(slot, arity));
}

} // verus!
