//! Lists of values written on one line, with a semicolon after each item
//! or between them.

use vstd::prelude::*;
use vstd::string::*;
use crate::text::{tokenize, tokens, views};
use crate::tuple::{parse_line, parse_slot, parse_slot_of, MimicArg, Slot, SlotKind, SlotValue};
use crate::MAX_ARITY;

verus! {

/// Why a line was not turned into a list.
#[derive(Clone, Copy, Debug, PartialEq, Eq, Structural)]
pub enum ListError {
    /// The line holds no item at all.
    NoItems,
    /// One of the items is no value of the list's type.
    ItemParseFailure,
}

impl ListError {
    /// The text that describes the failure.
    pub open spec fn message_text(self) -> Seq<char> {
        match self {
            ListError::NoItems => "No semi-colon-separated list found in input for MimicList"@,
            ListError::ItemParseFailure => "Failed to parse as MimicList<T>"@,
        }
    }

    /// The text that describes the failure.
    pub fn message(&self) -> (out: String)
        ensures
            out@ == self.message_text(),
    {
        match self {
            ListError::NoItems => String::from_str(
                "No semi-colon-separated list found in input for MimicList",
            ),
            ListError::ItemParseFailure => String::from_str("Failed to parse as MimicList<T>"),
        }
    }
}

/// A list of values of one type, in the order in which they were written.
#[derive(Debug)]
pub struct MimicList<T> {
    output_list: Vec<T>,
}

impl<T> View for MimicList<T> {
    type V = Seq<T>;

    closed spec fn view(&self) -> Seq<T> {
        self.output_list@
    }
}

impl<T> Default for MimicList<T> {
    /// The list without values.
    fn default() -> (list: Self)
        ensures
            list@ == Seq::<T>::empty(),
    {
        MimicList::<T> { output_list: Vec::new() }
    }
}

impl<T> From<MimicList<T>> for Vec<T> {
    /// The values of the list.
    fn from(ibl: MimicList<T>) -> (v: Vec<T>) {
        ibl.output_list
    }
}

impl<T> vstd::std_specs::convert::FromSpecImpl<MimicList<T>> for Vec<T> {
    open spec fn obeys_from_spec() -> bool {
        true
    }

    closed spec fn from_spec(ibl: MimicList<T>) -> Vec<T> {
        ibl.output_list
    }
}

/// The vector made from a list holds the list's values.
pub proof fn lemma_vec_from_list<T>(ibl: MimicList<T>)
    ensures
        <Vec<T> as vstd::std_specs::convert::FromSpec<MimicList<T>>>::from_spec(ibl)@ == ibl@,
{
}

/// The items of a line: what stands between the semicolons, trimmed,
/// without the empty items.
pub open spec fn list_items(line: Seq<char>) -> Seq<Seq<char>> {
    tokens(line, ';')
}

/// The list made of what each item was found to be: a failure where
/// there is no item or where one of them was found to be nothing, else the
/// values in order.
pub open spec fn list_of_parsed<T>(parsed: Seq<Option<T>>) -> Result<Seq<T>, ListError> {
    if parsed.len() == 0 {
        Err(ListError::NoItems)
    } else if exists|i: int| 0 <= i < parsed.len() && #[trigger] parsed[i] is None {
        Err(ListError::ItemParseFailure)
    } else {
        Ok(Seq::new(parsed.len(), |i: int| parsed[i]->0))
    }
}

/// What each item of the line is as a value of the kind `kind`.
pub open spec fn parsed_values(kind: SlotKind, line: Seq<char>) -> Seq<Option<Slot>> {
    Seq::new(list_items(line).len(), |i: int| parse_slot(kind, list_items(line)[i]))
}

/// What each item of the line is as a tuple of the kinds `kinds`.
pub open spec fn parsed_tuples(kinds: Seq<SlotKind>, line: Seq<char>) -> Seq<Option<Seq<Slot>>> {
    Seq::new(
        list_items(line).len(),
        |i: int|
            match parse_line(kinds, list_items(line)[i]) {
                Ok(slots) => Some(slots),
                Err(_) => None,
            },
    )
}

/// The values of a list of slot values.
pub open spec fn value_views(values: Seq<SlotValue>) -> Seq<Slot> {
    values.map_values(|v: SlotValue| v@)
}

/// The values of a list of tuples.
pub open spec fn tuple_views(tuples: Seq<MimicArg>) -> Seq<Seq<Slot>> {
    tuples.map_values(|t: MimicArg| t@)
}

impl<T> MimicList<T> {
    /// The list that holds `t`.
    pub fn new(t: Vec<T>) -> (list: Self)
        ensures
            list@ == t@,
    {
        MimicList::<T> { output_list: t }
    }

    /// The values of the list.
    pub fn into_vec(self) -> (v: Vec<T>)
        ensures
            v@ == self@,
    {
        self.output_list
    }

    /// The number of values.
    pub fn len(&self) -> (n: usize)
        ensures
            n == self@.len(),
    {
        self.output_list.len()
    }

    /// The list made of what each item of a line was found to be, item by
    /// item: `None` for an item that is no value.
    pub fn from_parsed(parsed: Vec<Option<T>>) -> (r: Result<MimicList<T>, ListError>)
        ensures
            match r {
                Ok(list) => list_of_parsed(parsed@) == Ok::<Seq<T>, ListError>(list@),
                Err(e) => list_of_parsed(parsed@) == Err::<Seq<T>, ListError>(e),
            },
    {
        if parsed.len() == 0 {
            return Err(ListError::NoItems);
        }
        let ghost all = parsed@;
        let mut output_list: Vec<T> = Vec::new();
        let mut failed = false;
        for item in it: parsed
            invariant
                it.seq() == all,
                failed <==> exists|i: int| 0 <= i < it.index() && #[trigger] all[i] is None,
                !failed ==> output_list@.len() == it.index(),
                !failed ==> forall|k: int|
                    0 <= k < it.index() ==> Some(#[trigger] output_list@[k]) == all[k],
        {
            match item {
                Some(v) => {
                    if !failed {
                        output_list.push(v);
                    }
                },
                None => {
                    assert(all[it.index() as int] is None);
                    failed = true;
                },
            }
        }
        if failed {
            return Err(ListError::ItemParseFailure);
        }
        let list = MimicList::<T> { output_list };
        assert(list@ =~= Seq::new(all.len(), |i: int| all[i]->0));
        Ok(list)
    }
}

/// What a conversion to a list of values returned, as plain values.
pub open spec fn values_outcome(r: Result<MimicList<SlotValue>, ListError>) -> Result<
    Seq<Slot>,
    ListError,
> {
    match r {
        Ok(list) => Ok(value_views(list@)),
        Err(e) => Err(e),
    }
}

/// What a conversion to a list of tuples returned, as plain values.
pub open spec fn tuples_outcome(r: Result<MimicList<MimicArg>, ListError>) -> Result<
    Seq<Seq<Slot>>,
    ListError,
> {
    match r {
        Ok(list) => Ok(tuple_views(list@)),
        Err(e) => Err(e),
    }
}

impl MimicList<SlotValue> {
    /// The list of the values of the kind `kind` that the line `s` holds.
    pub fn from_str(kind: SlotKind, s: &str) -> (r: Result<MimicList<SlotValue>, ListError>)
        ensures
            values_outcome(r) == list_of_parsed(parsed_values(kind, s@)),
    {
        let items = tokenize(s, ';');
        assert(views(items@).len() == items@.len());
        if items.len() == 0 {
            return Err(ListError::NoItems);
        }
        let mut output_list: Vec<SlotValue> = Vec::new();
        let mut i: usize = 0;
        while i < items.len()
            invariant
                i <= items.len(),
                views(items@) == list_items(s@),
                output_list@.len() == i,
                forall|k: int|
                    0 <= k < i ==> parsed_values(kind, s@)[k] == Some(
                        (#[trigger] output_list@[k])@,
                    ),
            decreases items.len() - i,
        {
            assert(views(items@)[i as int] == items@[i as int]@);
            match parse_slot_of(kind, items[i].as_str()) {
                Some(v) => {
                    output_list.push(v);
                },
                None => {
                    assert(parsed_values(kind, s@)[i as int] is None);
                    return Err(ListError::ItemParseFailure);
                },
            }
            i = i + 1;
        }
        assert forall|k: int| 0 <= k < items.len() implies #[trigger] parsed_values(
            kind,
            s@,
        )[k] is Some by {
            assert(parsed_values(kind, s@)[k] == Some(output_list@[k]@));
        }
        let list = MimicList::<SlotValue> { output_list };
        assert(value_views(list@) =~= Seq::new(
            parsed_values(kind, s@).len(),
            |i: int| parsed_values(kind, s@)[i]->0,
        ));
        Ok(list)
    }
}

impl MimicList<MimicArg> {
    /// The list of the tuples of the kinds `kinds` that the line `s` holds,
    /// each written as a comma-separated line of its own.
    pub fn from_str(kinds: &Vec<SlotKind>, s: &str) -> (r: Result<MimicList<MimicArg>, ListError>)
        requires
            kinds.len() <= MAX_ARITY,
        ensures
            tuples_outcome(r) == list_of_parsed(parsed_tuples(kinds@, s@)),
    {
        let items = tokenize(s, ';');
        assert(views(items@).len() == items@.len());
        if items.len() == 0 {
            return Err(ListError::NoItems);
        }
        let mut output_list: Vec<MimicArg> = Vec::new();
        let mut i: usize = 0;
        while i < items.len()
            invariant
                i <= items.len(),
                kinds.len() <= MAX_ARITY,
                views(items@) == list_items(s@),
                output_list@.len() == i,
                forall|k: int|
                    0 <= k < i ==> parsed_tuples(kinds@, s@)[k] == Some(
                        (#[trigger] output_list@[k])@,
                    ),
            decreases items.len() - i,
        {
            assert(views(items@)[i as int] == items@[i as int]@);
            match MimicArg::from_str(kinds, items[i].as_str()) {
                Ok(v) => {
                    output_list.push(v);
                },
                Err(_) => {
                    assert(parsed_tuples(kinds@, s@)[i as int] is None);
                    return Err(ListError::ItemParseFailure);
                },
            }
            i = i + 1;
        }
        assert forall|k: int| 0 <= k < items.len() implies #[trigger] parsed_tuples(
            kinds@,
            s@,
        )[k] is Some by {
            assert(parsed_tuples(kinds@, s@)[k] == Some(output_list@[k]@));
        }
        let list = MimicList::<MimicArg> { output_list };
        assert(tuple_views(list@) =~= Seq::new(
            parsed_tuples(kinds@, s@).len(),
            |i: int| parsed_tuples(kinds@, s@)[i]->0,
        ));
        Ok(list)
    }
}

} // verus!
