//! Tuples of typed slots, made from a list of strings or from a
//! comma-separated line: one string for each slot, each parsed as the
//! slot's kind asks, from left to right, the first failure ending the whole.

use vstd::prelude::*;
use vstd::string::*;
use crate::errors::ParseError;
use crate::numbers::{bounded_value, parse_signed, parse_unsigned};
use crate::text::{tokenize, tokens, views};
use crate::MAX_ARITY;

verus! {

/// How the string of a slot is read.
#[derive(Clone, Copy, Debug, PartialEq, Eq, Structural)]
pub enum SlotKind {
    U8,
    U16,
    U32,
    U64,
    U128,
    Usize,
    I8,
    I16,
    I32,
    I64,
    I128,
    Isize,
    /// `true` or `false`.
    Bool,
    /// Any string, the empty one too, kept as it is.
    Text,
    /// A type that its owner reads: the string is kept for that.
    Deferred,
}

/// The value of a slot.
#[derive(Debug, PartialEq, Eq)]
pub enum SlotValue {
    U8(u8),
    U16(u16),
    U32(u32),
    U64(u64),
    U128(u128),
    Usize(usize),
    I8(i8),
    I16(i16),
    I32(i32),
    I64(i64),
    I128(i128),
    Isize(isize),
    Bool(bool),
    Text(String),
    Deferred(String),
}

/// The value of a slot, as mathematics has it.
pub enum Slot {
    /// A number of the integer kind `kind`.
    Int { kind: SlotKind, value: int },
    Bool(bool),
    Text(Seq<char>),
    Deferred(Seq<char>),
}

impl View for SlotValue {
    type V = Slot;

    open spec fn view(&self) -> Slot {
        match *self {
            SlotValue::U8(v) => Slot::Int { kind: SlotKind::U8, value: v as int },
            SlotValue::U16(v) => Slot::Int { kind: SlotKind::U16, value: v as int },
            SlotValue::U32(v) => Slot::Int { kind: SlotKind::U32, value: v as int },
            SlotValue::U64(v) => Slot::Int { kind: SlotKind::U64, value: v as int },
            SlotValue::U128(v) => Slot::Int { kind: SlotKind::U128, value: v as int },
            SlotValue::Usize(v) => Slot::Int { kind: SlotKind::Usize, value: v as int },
            SlotValue::I8(v) => Slot::Int { kind: SlotKind::I8, value: v as int },
            SlotValue::I16(v) => Slot::Int { kind: SlotKind::I16, value: v as int },
            SlotValue::I32(v) => Slot::Int { kind: SlotKind::I32, value: v as int },
            SlotValue::I64(v) => Slot::Int { kind: SlotKind::I64, value: v as int },
            SlotValue::I128(v) => Slot::Int { kind: SlotKind::I128, value: v as int },
            SlotValue::Isize(v) => Slot::Int { kind: SlotKind::Isize, value: v as int },
            SlotValue::Bool(b) => Slot::Bool(b),
            SlotValue::Text(s) => Slot::Text(s@),
            SlotValue::Deferred(s) => Slot::Deferred(s@),
        }
    }
}

impl SlotKind {
    /// Whether the kind is one of the twelve integer types.
    pub open spec fn is_integer(self) -> bool {
        !(self is Bool || self is Text || self is Deferred)
    }

    /// Whether the kind is a signed integer type.
    pub open spec fn is_signed(self) -> bool {
        self is I8 || self is I16 || self is I32 || self is I64 || self is I128 || self is Isize
    }

    /// The least number of an integer kind.
    pub open spec fn low(self) -> int {
        match self {
            SlotKind::I8 => i8::MIN as int,
            SlotKind::I16 => i16::MIN as int,
            SlotKind::I32 => i32::MIN as int,
            SlotKind::I64 => i64::MIN as int,
            SlotKind::I128 => i128::MIN as int,
            SlotKind::Isize => isize::MIN as int,
            _ => 0,
        }
    }

    /// The greatest number of an integer kind.
    pub open spec fn high(self) -> int {
        match self {
            SlotKind::U8 => u8::MAX as int,
            SlotKind::U16 => u16::MAX as int,
            SlotKind::U32 => u32::MAX as int,
            SlotKind::U64 => u64::MAX as int,
            SlotKind::U128 => u128::MAX as int,
            SlotKind::Usize => usize::MAX as int,
            SlotKind::I8 => i8::MAX as int,
            SlotKind::I16 => i16::MAX as int,
            SlotKind::I32 => i32::MAX as int,
            SlotKind::I64 => i64::MAX as int,
            SlotKind::I128 => i128::MAX as int,
            SlotKind::Isize => isize::MAX as int,
            _ => 0,
        }
    }
}

/// The kind by which a field of the type `name` is read: the integer types
/// and `bool` by their own rules, `String` as text, and every other type
/// deferred to its owner.
pub open spec fn kind_for(name: Seq<char>) -> SlotKind {
    if name == "u8"@ {
        SlotKind::U8
    } else if name == "u16"@ {
        SlotKind::U16
    } else if name == "u32"@ {
        SlotKind::U32
    } else if name == "u64"@ {
        SlotKind::U64
    } else if name == "u128"@ {
        SlotKind::U128
    } else if name == "usize"@ {
        SlotKind::Usize
    } else if name == "i8"@ {
        SlotKind::I8
    } else if name == "i16"@ {
        SlotKind::I16
    } else if name == "i32"@ {
        SlotKind::I32
    } else if name == "i64"@ {
        SlotKind::I64
    } else if name == "i128"@ {
        SlotKind::I128
    } else if name == "isize"@ {
        SlotKind::Isize
    } else if name == "bool"@ {
        SlotKind::Bool
    } else if name == "String"@ {
        SlotKind::Text
    } else {
        SlotKind::Deferred
    }
}

/// What the string `s` is as a value of the kind `kind`, if anything. An
/// integer kind takes a decimal numeral that its type can hold; `Bool`
/// takes `true` and `false`; the other two take every string.
pub open spec fn parse_slot(kind: SlotKind, s: Seq<char>) -> Option<Slot> {
    match kind {
        SlotKind::Bool => if s == "true"@ {
            Some(Slot::Bool(true))
        } else if s == "false"@ {
            Some(Slot::Bool(false))
        } else {
            None
        },
        SlotKind::Text => Some(Slot::Text(s)),
        SlotKind::Deferred => Some(Slot::Deferred(s)),
        _ => match bounded_value(s, kind.is_signed(), kind.low(), kind.high()) {
            Some(v) => Some(Slot::Int { kind: kind, value: v }),
            None => None,
        },
    }
}

/// The place of the first of the first `upto` strings that is no value of
/// its slot's kind, if there is one.
pub open spec fn first_failure(kinds: Seq<SlotKind>, texts: Seq<Seq<char>>, upto: nat) -> Option<
    nat,
>
    decreases upto,
{
    if upto == 0 {
        None
    } else {
        match first_failure(kinds, texts, (upto - 1) as nat) {
            Some(i) => Some(i),
            None => if parse_slot(kinds[upto - 1], texts[upto - 1]) is None {
                Some((upto - 1) as nat)
            } else {
                None
            },
        }
    }
}

/// The tuple made of as many strings as there are slots: each string as a
/// value of its slot's kind, or the failure of the first slot that has none.
pub open spec fn parse_texts(kinds: Seq<SlotKind>, texts: Seq<Seq<char>>, from_line: bool) -> Result<
    Seq<Slot>,
    ParseError,
> {
    match first_failure(kinds, texts, kinds.len()) {
        Some(i) => Err(
            ParseError::SlotParseFailure {
                slot: i as usize,
                arity: kinds.len() as usize,
                from_line: from_line,
            },
        ),
        None => Ok(Seq::new(kinds.len(), |i: int| parse_slot(kinds[i], texts[i])->0)),
    }
}

/// The tuple made of a list of strings: a failure unless there is one
/// string for each slot, and then as `parse_texts` has it.
pub open spec fn parse_list(kinds: Seq<SlotKind>, input: Seq<Seq<char>>) -> Result<
    Seq<Slot>,
    ParseError,
> {
    if input.len() != kinds.len() {
        Err(
            ParseError::ArityMismatch {
                expected: kinds.len() as usize,
                actual: input.len() as usize,
            },
        )
    } else {
        parse_texts(kinds, input, false)
    }
}

/// The tuple made of a comma-separated line. Without slots, only the empty
/// line gives a tuple. With slots, the line's tokens are taken: a failure
/// where there is none or not one for each slot, and then as `parse_texts`
/// has it.
pub open spec fn parse_line(kinds: Seq<SlotKind>, line: Seq<char>) -> Result<
    Seq<Slot>,
    ParseError,
> {
    if kinds.len() == 0 {
        if line.len() == 0 {
            Ok(Seq::<Slot>::empty())
        } else {
            Err(ParseError::UnexpectedArguments)
        }
    } else if tokens(line, ',').len() == 0 {
        Err(ParseError::EmptyTokenList { expected: kinds.len() as usize })
    } else if tokens(line, ',').len() != kinds.len() {
        Err(
            ParseError::TokenCountMismatch {
                expected: kinds.len() as usize,
                actual: tokens(line, ',').len() as usize,
            },
        )
    } else {
        parse_texts(kinds, tokens(line, ','), true)
    }
}

/// What the string `s` is as a value of the kind `kind`, the owner's
/// verdict counted: a deferred slot whose owner says that the string is no
/// value of its type has none. The verdict changes nothing at the other kinds.
pub open spec fn judge_slot(kind: SlotKind, s: Seq<char>, accepted: bool) -> Option<Slot> {
    if kind is Deferred && !accepted {
        None
    } else {
        parse_slot(kind, s)
    }
}

/// The verdicts of an owner who takes every string: `n` times yes.
pub open spec fn all_accepted(n: nat) -> Seq<bool> {
    Seq::new(n, |i: int| true)
}

/// The place of the first of the first `upto` strings that is no value of
/// its slot's kind, the owner's verdicts counted, if there is one.
pub open spec fn first_judged_failure(
    kinds: Seq<SlotKind>,
    texts: Seq<Seq<char>>,
    verdicts: Seq<bool>,
    upto: nat,
) -> Option<nat>
    decreases upto,
{
    if upto == 0 {
        None
    } else {
        match first_judged_failure(kinds, texts, verdicts, (upto - 1) as nat) {
            Some(i) => Some(i),
            None => if judge_slot(kinds[upto - 1], texts[upto - 1], verdicts[upto - 1]) is None {
                Some((upto - 1) as nat)
            } else {
                None
            },
        }
    }
}

/// As `parse_texts`, the owner's verdicts counted: the failure is that of
/// the first slot whose string is no value, be it by the kind's own rule or
/// by the owner's verdict.
pub open spec fn parse_texts_judged(
    kinds: Seq<SlotKind>,
    texts: Seq<Seq<char>>,
    verdicts: Seq<bool>,
    from_line: bool,
) -> Result<Seq<Slot>, ParseError> {
    match first_judged_failure(kinds, texts, verdicts, kinds.len()) {
        Some(i) => Err(
            ParseError::SlotParseFailure {
                slot: i as usize,
                arity: kinds.len() as usize,
                from_line: from_line,
            },
        ),
        None => Ok(Seq::new(kinds.len(), |i: int| parse_slot(kinds[i], texts[i])->0)),
    }
}

/// As `parse_list`, the owner's verdicts counted.
pub open spec fn parse_list_judged(
    kinds: Seq<SlotKind>,
    input: Seq<Seq<char>>,
    verdicts: Seq<bool>,
) -> Result<Seq<Slot>, ParseError> {
    if input.len() != kinds.len() {
        parse_list(kinds, input)
    } else {
        parse_texts_judged(kinds, input, verdicts, false)
    }
}

/// As `parse_line`, the owner's verdicts counted; they speak of the line's
/// tokens, in order.
pub open spec fn parse_line_judged(
    kinds: Seq<SlotKind>,
    line: Seq<char>,
    verdicts: Seq<bool>,
) -> Result<Seq<Slot>, ParseError> {
    if kinds.len() == 0 || tokens(line, ',').len() != kinds.len() {
        parse_line(kinds, line)
    } else {
        parse_texts_judged(kinds, tokens(line, ','), verdicts, true)
    }
}

/// A tuple of the family: its slots `f0`, `f1`, ... in order.
#[derive(Debug)]
pub struct MimicArg {
    pub slots: Vec<SlotValue>,
}

/// The values of a list of slots.
pub open spec fn slot_views(slots: Seq<SlotValue>) -> Seq<Slot> {
    slots.map_values(|v: SlotValue| v@)
}

impl View for MimicArg {
    type V = Seq<Slot>;

    open spec fn view(&self) -> Seq<Slot> {
        slot_views(self.slots@)
    }
}

/// What a conversion returned, with the tuple as its values.
pub open spec fn outcome(r: Result<MimicArg, ParseError>) -> Result<Seq<Slot>, ParseError> {
    match r {
        Ok(arg) => Ok(arg@),
        Err(e) => Err(e),
    }
}

/// The kind by which a field of the type `name` is read.
pub fn kind_of_type(name: &str) -> (kind: SlotKind)
    ensures
        kind == kind_for(name@),
{
    if *name == *"u8" {
        SlotKind::U8
    } else if *name == *"u16" {
        SlotKind::U16
    } else if *name == *"u32" {
        SlotKind::U32
    } else if *name == *"u64" {
        SlotKind::U64
    } else if *name == *"u128" {
        SlotKind::U128
    } else if *name == *"usize" {
        SlotKind::Usize
    } else if *name == *"i8" {
        SlotKind::I8
    } else if *name == *"i16" {
        SlotKind::I16
    } else if *name == *"i32" {
        SlotKind::I32
    } else if *name == *"i64" {
        SlotKind::I64
    } else if *name == *"i128" {
        SlotKind::I128
    } else if *name == *"isize" {
        SlotKind::Isize
    } else if *name == *"bool" {
        SlotKind::Bool
    } else if *name == *"String" {
        SlotKind::Text
    } else {
        SlotKind::Deferred
    }
}

/// The string `s` as a value of the kind `kind`, or nothing where it is none.
pub fn parse_slot_of(kind: SlotKind, s: &str) -> (r: Option<SlotValue>)
    ensures
        match r {
            Some(v) => parse_slot(kind, s@) == Some(v@),
            None => parse_slot(kind, s@) is None,
        },
{
    match kind {
        SlotKind::U8 => match parse_unsigned(s, 0xff) {
            Some(v) => Some(SlotValue::U8(v as u8)),
            None => None,
        },
        SlotKind::U16 => match parse_unsigned(s, 0xffff) {
            Some(v) => Some(SlotValue::U16(v as u16)),
            None => None,
        },
        SlotKind::U32 => match parse_unsigned(s, 0xffff_ffff) {
            Some(v) => Some(SlotValue::U32(v as u32)),
            None => None,
        },
        SlotKind::U64 => match parse_unsigned(s, 0xffff_ffff_ffff_ffff) {
            Some(v) => Some(SlotValue::U64(v as u64)),
            None => None,
        },
        SlotKind::U128 => match parse_unsigned(s, u128::MAX) {
            Some(v) => Some(SlotValue::U128(v)),
            None => None,
        },
        SlotKind::Usize => match parse_unsigned(s, usize::MAX as u128) {
            Some(v) => Some(SlotValue::Usize(v as usize)),
            None => None,
        },
        SlotKind::I8 => match parse_signed(s, -0x80, 0x7f) {
            Some(v) => Some(SlotValue::I8(v as i8)),
            None => None,
        },
        SlotKind::I16 => match parse_signed(s, -0x8000, 0x7fff) {
            Some(v) => Some(SlotValue::I16(v as i16)),
            None => None,
        },
        SlotKind::I32 => match parse_signed(s, -0x8000_0000, 0x7fff_ffff) {
            Some(v) => Some(SlotValue::I32(v as i32)),
            None => None,
        },
        SlotKind::I64 => match parse_signed(s, -0x8000_0000_0000_0000, 0x7fff_ffff_ffff_ffff) {
            Some(v) => Some(SlotValue::I64(v as i64)),
            None => None,
        },
        SlotKind::I128 => match parse_signed(s, i128::MIN, i128::MAX) {
            Some(v) => Some(SlotValue::I128(v)),
            None => None,
        },
        SlotKind::Isize => match parse_signed(s, isize::MIN as i128, isize::MAX as i128) {
            Some(v) => Some(SlotValue::Isize(v as isize)),
            None => None,
        },
        SlotKind::Bool => if *s == *"true" {
            Some(SlotValue::Bool(true))
        } else if *s == *"false" {
            Some(SlotValue::Bool(false))
        } else {
            None
        },
        SlotKind::Text => Some(SlotValue::Text(String::from_str(s))),
        SlotKind::Deferred => Some(SlotValue::Deferred(String::from_str(s))),
    }
}

/// Where nothing fails among the first `upto` strings, each of them is a
/// value of its slot's kind; and where something fails, the place given is
/// the first that does.
pub proof fn lemma_first_failure(kinds: Seq<SlotKind>, texts: Seq<Seq<char>>, upto: nat)
    ensures
        match first_failure(kinds, texts, upto) {
            Some(i) => i < upto && parse_slot(kinds[i as int], texts[i as int]) is None
                && forall|k: int| 0 <= k < i ==> parse_slot(kinds[k], texts[k]) is Some,
            None => forall|k: int| 0 <= k < upto ==> parse_slot(kinds[k], texts[k]) is Some,
        },
    decreases upto,
{
    if upto > 0 {
        lemma_first_failure(kinds, texts, (upto - 1) as nat);
    }
}

/// With an owner who takes every string, the verdicts change nothing.
pub proof fn lemma_all_accepted(kinds: Seq<SlotKind>, texts: Seq<Seq<char>>, upto: nat)
    requires
        upto <= kinds.len(),
    ensures
        first_judged_failure(kinds, texts, all_accepted(kinds.len()), upto) == first_failure(
            kinds,
            texts,
            upto,
        ),
    decreases upto,
{
    if upto > 0 {
        lemma_all_accepted(kinds, texts, (upto - 1) as nat);
    }
}

/// Where nothing fails among the first `upto` strings, each of them is a
/// value by its kind's rule and by the owner's verdict; and where something
/// fails, the place given is the first that does.
pub proof fn lemma_first_judged_failure(
    kinds: Seq<SlotKind>,
    texts: Seq<Seq<char>>,
    verdicts: Seq<bool>,
    upto: nat,
)
    ensures
        match first_judged_failure(kinds, texts, verdicts, upto) {
            Some(i) => i < upto && judge_slot(kinds[i as int], texts[i as int], verdicts[i as int])
                is None && forall|k: int|
                0 <= k < i ==> judge_slot(kinds[k], texts[k], verdicts[k]) is Some,
            None => forall|k: int|
                0 <= k < upto ==> judge_slot(kinds[k], texts[k], verdicts[k]) is Some,
        },
    decreases upto,
{
    if upto > 0 {
        lemma_first_judged_failure(kinds, texts, verdicts, (upto - 1) as nat);
    }
}

/// The verdicts of an owner who takes every string.
pub fn all_accepted_of(n: usize) -> (verdicts: Vec<bool>)
    ensures
        verdicts@ == all_accepted(n as nat),
{
    let mut verdicts: Vec<bool> = Vec::new();
    let mut i: usize = 0;
    while i < n
        invariant
            i <= n,
            verdicts@ == all_accepted(i as nat),
        decreases n - i,
    {
        verdicts.push(true);
        i = i + 1;
        assert(verdicts@ =~= all_accepted(i as nat));
    }
    verdicts
}

/// Each string as a value of its slot's kind, from left to right, the
/// owner's verdicts counted.
pub fn parse_all(
    kinds: &Vec<SlotKind>,
    texts: &Vec<String>,
    verdicts: &Vec<bool>,
    from_line: bool,
) -> (r: Result<MimicArg, ParseError>)
    requires
        texts.len() == kinds.len(),
        verdicts.len() == kinds.len(),
        kinds.len() <= MAX_ARITY,
    ensures
        outcome(r) == parse_texts_judged(kinds@, views(texts@), verdicts@, from_line),
{
    let mut slots: Vec<SlotValue> = Vec::new();
    let mut i: usize = 0;
    while i < kinds.len()
        invariant
            i <= kinds.len(),
            texts.len() == kinds.len(),
            verdicts.len() == kinds.len(),
            kinds.len() <= MAX_ARITY,
            slots@.len() == i,
            first_judged_failure(kinds@, views(texts@), verdicts@, i as nat) is None,
            forall|k: int|
                0 <= k < i ==> parse_slot(kinds@[k], views(texts@)[k]) == Some(
                    (#[trigger] slots@[k])@,
                ),
        decreases kinds.len() - i,
    {
        assert(views(texts@)[i as int] == texts@[i as int]@);
        let refused = match kinds[i] {
            SlotKind::Deferred => !verdicts[i],
            _ => false,
        };
        let found = if refused {
            None
        } else {
            parse_slot_of(kinds[i], texts[i].as_str())
        };
        match found {
            Some(v) => {
                slots.push(v);
            },
            None => {
                proof {
                    lemma_judged_failure_stays(
                        kinds@,
                        views(texts@),
                        verdicts@,
                        (i + 1) as nat,
                        kinds@.len(),
                    );
                }
                return Err(
                    ParseError::SlotParseFailure {
                        slot: i,
                        arity: kinds.len(),
                        from_line: from_line,
                    },
                );
            },
        }
        i = i + 1;
    }
    let arg = MimicArg { slots };
    assert(arg@ =~= Seq::new(
        kinds@.len(),
        |i: int| parse_slot(kinds@[i], views(texts@)[i])->0,
    ));
    Ok(arg)
}

/// A failure found among the first `upto` strings is the one found among more.
pub proof fn lemma_judged_failure_stays(
    kinds: Seq<SlotKind>,
    texts: Seq<Seq<char>>,
    verdicts: Seq<bool>,
    upto: nat,
    more: nat,
)
    requires
        upto <= more,
        first_judged_failure(kinds, texts, verdicts, upto) is Some,
    ensures
        first_judged_failure(kinds, texts, verdicts, more) == first_judged_failure(
            kinds,
            texts,
            verdicts,
            upto,
        ),
    decreases more,
{
    if upto < more {
        lemma_judged_failure_stays(kinds, texts, verdicts, upto, (more - 1) as nat);
    }
}

impl MimicArg {
    /// The number of slots.
    pub fn arity(&self) -> (n: usize)
        ensures
            n == self@.len(),
    {
        self.slots.len()
    }

    /// The slot `f` followed by `index`.
    pub fn slot(&self, index: usize) -> (v: &SlotValue)
        requires
            index < self@.len(),
        ensures
            v@ == self@[index as int],
    {
        &self.slots[index]
    }

    /// The tuple of the kinds `kinds` made of the list `input`: one string
    /// for each slot, in order.
    pub fn try_from(kinds: &Vec<SlotKind>, input: Vec<String>) -> (r: Result<MimicArg, ParseError>)
        requires
            kinds.len() <= MAX_ARITY,
        ensures
            outcome(r) == parse_list(kinds@, views(input@)),
    {
        let verdicts = all_accepted_of(kinds.len());
        proof {
            lemma_all_accepted(kinds@, views(input@), kinds@.len());
        }
        MimicArg::try_from_judged(kinds, input, &verdicts)
    }

    /// The tuple of the kinds `kinds` made of the list `input`, where the
    /// owner of each deferred slot has said whether the slot's string is a
    /// value of its type: `verdicts` holds one answer for each slot, and
    /// those for the other kinds of slot count for nothing.
    pub fn try_from_judged(kinds: &Vec<SlotKind>, input: Vec<String>, verdicts: &Vec<bool>) -> (r:
        Result<MimicArg, ParseError>)
        requires
            kinds.len() <= MAX_ARITY,
            verdicts.len() == kinds.len(),
        ensures
            outcome(r) == parse_list_judged(kinds@, views(input@), verdicts@),
    {
        if input.len() != kinds.len() {
            return Err(ParseError::ArityMismatch { expected: kinds.len(), actual: input.len() });
        }
        parse_all(kinds, &input, verdicts, false)
    }

    /// The tuple of the kinds `kinds` made of the comma-separated line `input`.
    pub fn from_str(kinds: &Vec<SlotKind>, input: &str) -> (r: Result<MimicArg, ParseError>)
        requires
            kinds.len() <= MAX_ARITY,
        ensures
            outcome(r) == parse_line(kinds@, input@),
    {
        let verdicts = all_accepted_of(kinds.len());
        proof {
            lemma_all_accepted(kinds@, tokens(input@, ','), kinds@.len());
        }
        MimicArg::from_str_judged(kinds, input, &verdicts)
    }

    /// The tuple of the kinds `kinds` made of the comma-separated line
    /// `input`, where the owner of each deferred slot has said whether the
    /// token for the slot is a value of its type.
    pub fn from_str_judged(kinds: &Vec<SlotKind>, input: &str, verdicts: &Vec<bool>) -> (r: Result<
        MimicArg,
        ParseError,
    >)
        requires
            kinds.len() <= MAX_ARITY,
            verdicts.len() == kinds.len(),
        ensures
            outcome(r) == parse_line_judged(kinds@, input@, verdicts@),
    {
        if kinds.len() == 0 {
            if !input.is_empty() {
                return Err(ParseError::UnexpectedArguments);
            }
            let arg = MimicArg { slots: Vec::new() };
            assert(arg@ =~= Seq::<Slot>::empty());
            return Ok(arg);
        }
        let found = tokenize(input, ',');
        assert(views(found@).len() == found@.len());
        if found.len() == 0 {
            return Err(ParseError::EmptyTokenList { expected: kinds.len() });
        }
        if found.len() != kinds.len() {
            return Err(
                ParseError::TokenCountMismatch { expected: kinds.len(), actual: found.len() },
            );
        }
        parse_all(kinds, &found, verdicts, true)
    }
}

} // verus!
