use mimicry::list::{ListError, MimicList};
use mimicry::tuple::{MimicArg, SlotKind, SlotValue};

#[test]
fn a_list_holds_what_it_was_given() {
    let list = MimicList::new(vec![3, 1, 2]);
    assert_eq!(list.len(), 3);
    assert_eq!(list.into_vec(), vec![3, 1, 2]);
    assert_eq!(MimicList::<u8>::new(vec![]).len(), 0);
    assert_eq!(MimicList::<u8>::default().len(), 0);
    let values: Vec<u8> = MimicList::new(vec![7, 8]).into();
    assert_eq!(values, vec![7, 8]);
}

#[test]
fn a_list_of_found_values_keeps_their_order() {
    let list = MimicList::from_parsed(vec![Some('a'), Some('b'), Some('c')]).unwrap();
    assert_eq!(list.into_vec(), vec!['a', 'b', 'c']);
    assert_eq!(MimicList::from_parsed(vec![Some(1)]).unwrap().into_vec(), vec![1]);
}

#[test]
fn a_list_without_items_is_refused() {
    assert_eq!(MimicList::<u8>::from_parsed(vec![]).unwrap_err(), ListError::NoItems);
    assert_eq!(
        MimicList::<SlotValue>::from_str(SlotKind::U8, "").unwrap_err(),
        ListError::NoItems
    );
    assert_eq!(
        MimicList::<SlotValue>::from_str(SlotKind::U8, " ; ;; ").unwrap_err(),
        ListError::NoItems
    );
    assert_eq!(
        MimicList::<MimicArg>::from_str(&vec![SlotKind::U8], ";").unwrap_err(),
        ListError::NoItems
    );
}

#[test]
fn one_bad_item_spoils_the_list() {
    assert_eq!(
        MimicList::from_parsed(vec![Some(1), None, Some(3)]).unwrap_err(),
        ListError::ItemParseFailure
    );
    assert_eq!(MimicList::<u8>::from_parsed(vec![None]).unwrap_err(), ListError::ItemParseFailure);
    assert_eq!(
        MimicList::<SlotValue>::from_str(SlotKind::U8, "1; 2; 300").unwrap_err(),
        ListError::ItemParseFailure
    );
    assert_eq!(
        MimicList::<MimicArg>::from_str(&vec![SlotKind::U8, SlotKind::U8], "1,2; 3").unwrap_err(),
        ListError::ItemParseFailure
    );
}

#[test]
fn each_list_failure_has_its_message() {
    assert_eq!(
        ListError::NoItems.message(),
        "No semi-colon-separated list found in input for MimicList"
    );
    assert_eq!(ListError::ItemParseFailure.message(), "Failed to parse as MimicList<T>");
}

#[test]
fn items_are_trimmed() {
    let list = MimicList::<SlotValue>::from_str(SlotKind::Text, " a ;b;; c d ;").unwrap();
    assert_eq!(
        list.into_vec(),
        vec![
            SlotValue::Text("a".to_owned()),
            SlotValue::Text("b".to_owned()),
            SlotValue::Text("c d".to_owned())
        ]
    );
}
