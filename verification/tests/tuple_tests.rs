use mimicry::errors::ParseError;
use mimicry::tuple::{kind_of_type, parse_slot_of, MimicArg, SlotKind, SlotValue};

fn owned(items: &[&str]) -> Vec<String> {
    items.iter().map(|s| s.to_string()).collect()
}

#[test]
fn unsigned_slots_take_numerals_in_range() {
    assert_eq!(parse_slot_of(SlotKind::U8, "0"), Some(SlotValue::U8(0)));
    assert_eq!(parse_slot_of(SlotKind::U8, "255"), Some(SlotValue::U8(255)));
    assert_eq!(parse_slot_of(SlotKind::U8, "256"), None);
    assert_eq!(parse_slot_of(SlotKind::U8, "+7"), Some(SlotValue::U8(7)));
    assert_eq!(parse_slot_of(SlotKind::U8, "007"), Some(SlotValue::U8(7)));
    assert_eq!(parse_slot_of(SlotKind::U8, "-0"), None);
    assert_eq!(parse_slot_of(SlotKind::U16, "65535"), Some(SlotValue::U16(65535)));
    assert_eq!(parse_slot_of(SlotKind::U16, "65536"), None);
    assert_eq!(parse_slot_of(SlotKind::U32, "4294967295"), Some(SlotValue::U32(u32::MAX)));
    assert_eq!(parse_slot_of(SlotKind::U32, "4294967296"), None);
    assert_eq!(parse_slot_of(SlotKind::U64, "18446744073709551615"), Some(SlotValue::U64(u64::MAX)));
    assert_eq!(parse_slot_of(SlotKind::U64, "18446744073709551616"), None);
    assert_eq!(
        parse_slot_of(SlotKind::U128, "340282366920938463463374607431768211455"),
        Some(SlotValue::U128(u128::MAX))
    );
    assert_eq!(parse_slot_of(SlotKind::U128, "340282366920938463463374607431768211456"), None);
    assert_eq!(
        parse_slot_of(SlotKind::Usize, &usize::MAX.to_string()),
        Some(SlotValue::Usize(usize::MAX))
    );
    assert_eq!(parse_slot_of(SlotKind::Usize, "19"), Some(SlotValue::Usize(19)));
}

#[test]
fn signed_slots_take_a_minus_sign() {
    assert_eq!(parse_slot_of(SlotKind::I8, "-128"), Some(SlotValue::I8(-128)));
    assert_eq!(parse_slot_of(SlotKind::I8, "127"), Some(SlotValue::I8(127)));
    assert_eq!(parse_slot_of(SlotKind::I8, "-129"), None);
    assert_eq!(parse_slot_of(SlotKind::I8, "128"), None);
    assert_eq!(parse_slot_of(SlotKind::I8, "-0"), Some(SlotValue::I8(0)));
    assert_eq!(parse_slot_of(SlotKind::I16, "-32768"), Some(SlotValue::I16(i16::MIN)));
    assert_eq!(parse_slot_of(SlotKind::I16, "32768"), None);
    assert_eq!(parse_slot_of(SlotKind::I32, "-2147483648"), Some(SlotValue::I32(i32::MIN)));
    assert_eq!(parse_slot_of(SlotKind::I32, "2147483648"), None);
    assert_eq!(parse_slot_of(SlotKind::I64, "-1089189128"), Some(SlotValue::I64(-1089189128)));
    assert_eq!(parse_slot_of(SlotKind::I64, "9223372036854775808"), None);
    assert_eq!(
        parse_slot_of(SlotKind::I128, "-170141183460469231731687303715884105728"),
        Some(SlotValue::I128(i128::MIN))
    );
    assert_eq!(parse_slot_of(SlotKind::I128, "170141183460469231731687303715884105728"), None);
    assert_eq!(
        parse_slot_of(SlotKind::Isize, &isize::MIN.to_string()),
        Some(SlotValue::Isize(isize::MIN))
    );
    assert_eq!(parse_slot_of(SlotKind::Isize, "+13"), Some(SlotValue::Isize(13)));
}

#[test]
fn what_is_no_numeral_is_no_number() {
    for text in ["", "+", "-", " 1", "1 ", "1_000", "0x10", "1.5", "one", "--1", "+-1", "١"] {
        assert_eq!(parse_slot_of(SlotKind::I64, text), None, "{:?}", text);
        assert_eq!(parse_slot_of(SlotKind::U64, text), None, "{:?}", text);
    }
}

#[test]
fn integer_slots_read_as_the_integer_types_do() {
    let texts = ["0", "-1", "+1", "255", "256", "-128", "-129", "65536", "", "+", "-", "12a", "0012"];
    for text in texts {
        assert_eq!(parse_slot_of(SlotKind::U8, text), text.parse().ok().map(SlotValue::U8));
        assert_eq!(parse_slot_of(SlotKind::I8, text), text.parse().ok().map(SlotValue::I8));
        assert_eq!(parse_slot_of(SlotKind::U16, text), text.parse().ok().map(SlotValue::U16));
        assert_eq!(parse_slot_of(SlotKind::I16, text), text.parse().ok().map(SlotValue::I16));
        assert_eq!(parse_slot_of(SlotKind::U32, text), text.parse().ok().map(SlotValue::U32));
        assert_eq!(parse_slot_of(SlotKind::I32, text), text.parse().ok().map(SlotValue::I32));
        assert_eq!(parse_slot_of(SlotKind::Usize, text), text.parse().ok().map(SlotValue::Usize));
        assert_eq!(parse_slot_of(SlotKind::Isize, text), text.parse().ok().map(SlotValue::Isize));
    }
}

#[test]
fn the_other_kinds() {
    assert_eq!(parse_slot_of(SlotKind::Bool, "true"), Some(SlotValue::Bool(true)));
    assert_eq!(parse_slot_of(SlotKind::Bool, "false"), Some(SlotValue::Bool(false)));
    for text in ["", "True", "1", "0", " true", "yes"] {
        assert_eq!(parse_slot_of(SlotKind::Bool, text), None);
    }
    assert_eq!(parse_slot_of(SlotKind::Text, ""), Some(SlotValue::Text(String::new())));
    assert_eq!(parse_slot_of(SlotKind::Text, " a b "), Some(SlotValue::Text(" a b ".to_owned())));
    assert_eq!(parse_slot_of(SlotKind::Deferred, "1.5"), Some(SlotValue::Deferred("1.5".to_owned())));
}

#[test]
fn kinds_go_by_the_name_of_the_type() {
    assert_eq!(kind_of_type("u8"), SlotKind::U8);
    assert_eq!(kind_of_type("u16"), SlotKind::U16);
    assert_eq!(kind_of_type("u32"), SlotKind::U32);
    assert_eq!(kind_of_type("u64"), SlotKind::U64);
    assert_eq!(kind_of_type("u128"), SlotKind::U128);
    assert_eq!(kind_of_type("usize"), SlotKind::Usize);
    assert_eq!(kind_of_type("i8"), SlotKind::I8);
    assert_eq!(kind_of_type("i16"), SlotKind::I16);
    assert_eq!(kind_of_type("i32"), SlotKind::I32);
    assert_eq!(kind_of_type("i64"), SlotKind::I64);
    assert_eq!(kind_of_type("i128"), SlotKind::I128);
    assert_eq!(kind_of_type("isize"), SlotKind::Isize);
    assert_eq!(kind_of_type("bool"), SlotKind::Bool);
    assert_eq!(kind_of_type("String"), SlotKind::Text);
    for name in ["f32", "f64", "BOOL", "Vec$u8", "", "string"] {
        assert_eq!(kind_of_type(name), SlotKind::Deferred);
    }
}

#[test]
fn two_strings_make_a_tuple_of_two() {
    let arg = MimicArg::try_from(&vec![SlotKind::Text, SlotKind::Text], owned(&["uno", "1.5.2"]))
        .unwrap();
    assert_eq!(arg.arity(), 2);
    assert_eq!(*arg.slot(0), SlotValue::Text("uno".to_owned()));
    assert_eq!(*arg.slot(1), SlotValue::Text("1.5.2".to_owned()));
}

#[test]
fn a_list_of_the_wrong_length_is_refused() {
    let kinds = vec![SlotKind::Text, SlotKind::Isize];
    assert_eq!(
        MimicArg::try_from(&kinds, owned(&["undersized"])).unwrap_err(),
        ParseError::ArityMismatch { expected: 2, actual: 1 }
    );
    assert_eq!(
        MimicArg::try_from(&kinds, owned(&["1", "2", "3"])).unwrap_err(),
        ParseError::ArityMismatch { expected: 2, actual: 3 }
    );
    assert_eq!(
        MimicArg::try_from(&kinds, owned(&[])).unwrap_err(),
        ParseError::ArityMismatch { expected: 2, actual: 0 }
    );
    assert_eq!(
        MimicArg::try_from(&vec![], owned(&["x"])).unwrap_err(),
        ParseError::ArityMismatch { expected: 0, actual: 1 }
    );
}

#[test]
fn the_tuple_without_slots() {
    assert_eq!(MimicArg::try_from(&vec![], vec![]).unwrap().arity(), 0);
    assert_eq!(MimicArg::from_str(&vec![], "").unwrap().arity(), 0);
    assert_eq!(MimicArg::from_str(&vec![], " ").unwrap_err(), ParseError::UnexpectedArguments);
    assert_eq!(MimicArg::from_str(&vec![], "1").unwrap_err(), ParseError::UnexpectedArguments);
}

#[test]
fn the_first_slot_that_fails_is_reported() {
    let kinds = vec![SlotKind::U8, SlotKind::Bool, SlotKind::I8];
    assert_eq!(
        MimicArg::try_from(&kinds, owned(&["1", "maybe", "1000"])).unwrap_err(),
        ParseError::SlotParseFailure { slot: 1, arity: 3, from_line: false }
    );
    assert_eq!(
        MimicArg::try_from(&kinds, owned(&["1", "true", "1000"])).unwrap_err(),
        ParseError::SlotParseFailure { slot: 2, arity: 3, from_line: false }
    );
    assert_eq!(
        MimicArg::try_from(&kinds, owned(&["", "", ""])).unwrap_err(),
        ParseError::SlotParseFailure { slot: 0, arity: 3, from_line: false }
    );
    assert_eq!(
        MimicArg::from_str(&kinds, "1, maybe, 1000").unwrap_err(),
        ParseError::SlotParseFailure { slot: 1, arity: 3, from_line: true }
    );
}

#[test]
fn a_line_of_two_tokens_makes_a_tuple_of_two() {
    let kinds = vec![SlotKind::Isize, SlotKind::Text];
    let arg = MimicArg::from_str(&kinds, "1,2").unwrap();
    assert_eq!(arg.slots, vec![SlotValue::Isize(1), SlotValue::Text("2".to_owned())]);
    let arg = MimicArg::from_str(&kinds, "  1 ,  two words ,").unwrap();
    assert_eq!(arg.slots, vec![SlotValue::Isize(1), SlotValue::Text("two words".to_owned())]);
}

#[test]
fn a_line_gives_what_the_list_of_its_tokens_gives() {
    let kinds = vec![SlotKind::U16, SlotKind::Bool, SlotKind::Text];
    let from_line = MimicArg::from_str(&kinds, " 7, true ,x y").unwrap();
    let from_list = MimicArg::try_from(&kinds, owned(&["7", "true", "x y"])).unwrap();
    assert_eq!(from_line.slots, from_list.slots);
}

#[test]
fn a_line_with_semicolons_is_one_token() {
    let two = vec![SlotKind::Isize, SlotKind::Text];
    assert_eq!(
        MimicArg::from_str(&two, "1; 2; 3").unwrap_err(),
        ParseError::TokenCountMismatch { expected: 2, actual: 1 }
    );
    assert_eq!(
        MimicArg::from_str(&vec![SlotKind::Isize], "1; 2; 3").unwrap_err(),
        ParseError::SlotParseFailure { slot: 0, arity: 1, from_line: true }
    );
}

#[test]
fn a_line_without_tokens_is_refused() {
    let kinds = vec![SlotKind::Text];
    for line in ["", " ", ",", " , ,, "] {
        assert_eq!(
            MimicArg::from_str(&kinds, line).unwrap_err(),
            ParseError::EmptyTokenList { expected: 1 }
        );
    }
}

#[test]
fn a_line_of_the_wrong_count_is_refused() {
    let kinds = vec![SlotKind::Text, SlotKind::Text];
    assert_eq!(
        MimicArg::from_str(&kinds, "a").unwrap_err(),
        ParseError::TokenCountMismatch { expected: 2, actual: 1 }
    );
    assert_eq!(
        MimicArg::from_str(&kinds, "a,b,c").unwrap_err(),
        ParseError::TokenCountMismatch { expected: 2, actual: 3 }
    );
    assert_eq!(
        MimicArg::from_str(&kinds, "a,,").unwrap_err(),
        ParseError::TokenCountMismatch { expected: 2, actual: 1 }
    );
}

#[test]
fn the_widest_tuple_has_twenty_six_slots() {
    let kinds = vec![SlotKind::U8; 26];
    let input: Vec<String> = (0..26).map(|i| i.to_string()).collect();
    let arg = MimicArg::try_from(&kinds, input.clone()).unwrap();
    assert_eq!(arg.arity(), 26);
    for i in 0..26 {
        assert_eq!(*arg.slot(i), SlotValue::U8(i as u8));
    }
    let line = input.join(", ");
    assert_eq!(MimicArg::from_str(&kinds, &line).unwrap().slots, arg.slots);
}

#[test]
fn each_failure_has_its_message() {
    assert_eq!(
        ParseError::ArityMismatch { expected: 0, actual: 2 }.message(),
        "Non-zero list-length provided to MimicArg0 for conversion TypeFrom<Vec<String>>"
    );
    assert_eq!(
        ParseError::ArityMismatch { expected: 2, actual: 1 }.message(),
        "Insufficient list length provided to MimicArg2 for conversion TryFrom<Vec<String>>"
    );
    assert_eq!(
        ParseError::UnexpectedArguments.message(),
        "FromStr for MimicArg0 expects no arguments"
    );
    assert_eq!(
        ParseError::EmptyTokenList { expected: 12 }.message(),
        "No comma-separated list found in argument to `from_str` for MimicArg12"
    );
    assert_eq!(
        ParseError::TokenCountMismatch { expected: 3, actual: 4 }.message(),
        "Invalid number of CSV arguments provided to `from_str` for MimicArg3"
    );
    assert_eq!(
        ParseError::SlotParseFailure { slot: 1, arity: 3, from_line: false }.message(),
        "Failed to parse `B` in MimicArg3<A,B,C>"
    );
    assert_eq!(
        ParseError::SlotParseFailure { slot: 25, arity: 26, from_line: true }.message(),
        "Failed to parse argument 25 as generic type Z in MimicArg26"
    );
}

#[test]
fn every_failure_of_the_family_has_a_message() {
    assert!(ParseError::ArityMismatch { expected: 2, actual: 2 }.has_message());
    assert!(ParseError::ArityMismatch { expected: 40, actual: 0 }.has_message());
    assert!(ParseError::UnexpectedArguments.has_message());
    assert!(ParseError::EmptyTokenList { expected: 0 }.has_message());
    assert!(ParseError::TokenCountMismatch { expected: 3, actual: 3 }.has_message());
    assert!(ParseError::SlotParseFailure { slot: 25, arity: 26, from_line: false }.has_message());
    assert!(ParseError::SlotParseFailure { slot: 3, arity: 2, from_line: true }.has_message());
    assert!(!ParseError::SlotParseFailure { slot: 26, arity: 26, from_line: false }.has_message());
    assert!(!ParseError::SlotParseFailure { slot: 0, arity: 27, from_line: true }.has_message());
    assert_eq!(
        ParseError::TokenCountMismatch { expected: 3, actual: 3 }.message(),
        "Invalid number of CSV arguments provided to `from_str` for MimicArg3"
    );
    assert_eq!(
        ParseError::EmptyTokenList { expected: 0 }.message(),
        "No comma-separated list found in argument to `from_str` for MimicArg0"
    );
}

#[test]
fn a_refused_deferred_slot_fails_in_its_turn() {
    let kinds = vec![SlotKind::Deferred, SlotKind::Isize];
    let input = owned(&["abc", "x"]);
    let verdicts: Vec<bool> = vec![input[0].parse::<f64>().is_ok(), true];
    let failure = MimicArg::try_from_judged(&kinds, input.clone(), &verdicts).unwrap_err();
    assert_eq!(failure, ParseError::SlotParseFailure { slot: 0, arity: 2, from_line: false });
    assert_eq!(failure.message(), "Failed to parse `A` in MimicArg2<A,B>");
    assert_eq!(
        MimicArg::try_from(&kinds, input).unwrap_err(),
        ParseError::SlotParseFailure { slot: 1, arity: 2, from_line: false }
    );
}

#[test]
fn the_verdicts_count_in_the_order_of_the_slots() {
    let kinds = vec![SlotKind::U8, SlotKind::Deferred, SlotKind::Deferred];
    let refuse_last = vec![true, true, false];
    assert_eq!(
        MimicArg::try_from_judged(&kinds, owned(&["1", "a", "b"]), &refuse_last).unwrap_err(),
        ParseError::SlotParseFailure { slot: 2, arity: 3, from_line: false }
    );
    assert_eq!(
        MimicArg::try_from_judged(&kinds, owned(&["x", "a", "b"]), &refuse_last).unwrap_err(),
        ParseError::SlotParseFailure { slot: 0, arity: 3, from_line: false }
    );
    assert_eq!(
        MimicArg::try_from_judged(&kinds, owned(&["1", "a"]), &refuse_last).unwrap_err(),
        ParseError::ArityMismatch { expected: 3, actual: 2 }
    );
    let accept = vec![false, true, true];
    let arg = MimicArg::try_from_judged(&kinds, owned(&["1", "a", "b"]), &accept).unwrap();
    assert_eq!(
        arg.slots,
        vec![
            SlotValue::U8(1),
            SlotValue::Deferred("a".to_owned()),
            SlotValue::Deferred("b".to_owned())
        ]
    );
}

#[test]
fn the_verdicts_count_for_a_line_too() {
    let kinds = vec![SlotKind::Deferred, SlotKind::Isize];
    assert_eq!(
        MimicArg::from_str_judged(&kinds, " abc , 7 ", &vec![false, true]).unwrap_err(),
        ParseError::SlotParseFailure { slot: 0, arity: 2, from_line: true }
    );
    assert_eq!(
        MimicArg::from_str_judged(&kinds, "1.5, 7", &vec![true, true]).unwrap().slots,
        vec![SlotValue::Deferred("1.5".to_owned()), SlotValue::Isize(7)]
    );
    assert_eq!(
        MimicArg::from_str_judged(&kinds, "1.5", &vec![false, false]).unwrap_err(),
        ParseError::TokenCountMismatch { expected: 2, actual: 1 }
    );
    assert_eq!(
        MimicArg::from_str_judged(&kinds, "", &vec![false, false]).unwrap_err(),
        ParseError::EmptyTokenList { expected: 2 }
    );
    assert_eq!(MimicArg::from_str_judged(&vec![], "", &vec![]).unwrap().arity(), 0);
}
