use later_operator::{ComparisonOperator, Error};
use std::str::FromStr;

/// Every way of parsing `val` gives `op`, with or without surrounding spaces.
fn check_parse(op: ComparisonOperator, val: &str) {
    assert_eq!(Ok(op), ComparisonOperator::try_from(val));
    assert_eq!(Ok(op), ComparisonOperator::from_str(val));
    assert_eq!(Ok(op), ComparisonOperator::try_from(val.as_bytes()));
    let padded = format!(" {val} ");
    assert_eq!(Ok(op), ComparisonOperator::try_from(padded.as_str()));
    assert_eq!(Ok(op), ComparisonOperator::try_from(padded.as_bytes()));
}

#[test]
fn t_parse() {
    check_parse(ComparisonOperator::Ne, "!=");
    check_parse(ComparisonOperator::Lt, "<");
    check_parse(ComparisonOperator::Le, "<=");
    check_parse(ComparisonOperator::Eq, "==");
    check_parse(ComparisonOperator::Eq, "=");
    check_parse(ComparisonOperator::Ge, ">=");
    check_parse(ComparisonOperator::Gt, ">");
}

#[test]
fn t_as() {
    for (op, v) in [
        (ComparisonOperator::Ne, "!="),
        (ComparisonOperator::Lt, "<"),
        (ComparisonOperator::Le, "<="),
        (ComparisonOperator::Eq, "=="),
        (ComparisonOperator::Ge, ">="),
        (ComparisonOperator::Gt, ">"),
    ] {
        assert_eq!(op.as_str(), v);
        assert_eq!(op.as_bytes(), v.as_bytes());
        assert_eq!(op.as_bytes().len(), op.len());
    }
}

/// How many of the values `0..=6` satisfy `lhs op v`.
fn count(op: ComparisonOperator, lhs: u8) -> usize {
    let set: [u8; 7] = [0, 1, 2, 3, 4, 5, 6];
    set.iter().filter(|v| op.compare(&lhs, v)).count()
}

#[test]
fn t_compare() {
    assert_eq!(count(ComparisonOperator::Ne, 3), 6);
    assert_eq!(count(ComparisonOperator::Lt, 3), 3);
    assert_eq!(count(ComparisonOperator::Le, 3), 4);
    assert_eq!(count(ComparisonOperator::Eq, 3), 1);
    assert_eq!(count(ComparisonOperator::Ge, 3), 4);
    assert_eq!(count(ComparisonOperator::Gt, 3), 3);

    assert_eq!(count(ComparisonOperator::Lt, 0), 6);
    assert_eq!(count(ComparisonOperator::Le, 0), 7);
    assert_eq!(count(ComparisonOperator::Ge, 6), 7);
    assert_eq!(count(ComparisonOperator::Gt, 6), 6);
}

const ALL: [ComparisonOperator; 6] = [
    ComparisonOperator::Ne,
    ComparisonOperator::Lt,
    ComparisonOperator::Le,
    ComparisonOperator::Eq,
    ComparisonOperator::Ge,
    ComparisonOperator::Gt,
];

#[test]
fn round_trip_of_canonical_text() {
    for op in ALL {
        let t = op.as_str();
        assert_eq!(ComparisonOperator::try_from(t).unwrap().as_str(), t);
        assert_eq!(ComparisonOperator::try_from(op.as_bytes()), Ok(op));
    }
}

#[test]
fn alias_is_never_rendered() {
    let alias = ComparisonOperator::try_from("=").unwrap();
    assert_eq!(alias, ComparisonOperator::try_from("==").unwrap());
    assert_eq!(alias, ComparisonOperator::Eq);
    assert_eq!(alias.as_str(), "==");
    assert_eq!(alias.as_bytes(), b"==");
}

#[test]
fn every_ascii_space_is_trimmed() {
    for op in ALL {
        let t = op.as_str();
        let padded = format!("\t\n\u{b}\u{c}\r {t} \r\u{c}\u{b}\n\t");
        assert_eq!(ComparisonOperator::try_from(padded.as_str()), Ok(op));
        let left = format!("\u{b}{t}");
        assert_eq!(ComparisonOperator::try_from(left.as_bytes()), Ok(op));
        let right = format!("{t}\n\n");
        assert_eq!(ComparisonOperator::from_str(&right), Ok(op));
    }
    assert_eq!(ComparisonOperator::try_from(" = "), Ok(ComparisonOperator::Eq));
}

#[test]
fn malformed_text_is_rejected() {
    for bad in ["", "~", "<>", " ", "=<", "< =", "===", "<<", "!", "=>", "\t\n", "LT", "<=x", "\u{2264}"] {
        assert_eq!(ComparisonOperator::try_from(bad), Err(Error));
        assert_eq!(ComparisonOperator::try_from(bad.as_bytes()), Err(Error));
        assert_eq!(ComparisonOperator::from_str(bad), Err(Error));
    }
    let bytes: [u8; 3] = [0x3c, 0x3d, 0xff];
    assert_eq!(ComparisonOperator::try_from(&bytes[..]), Err(Error));
    assert_eq!(ComparisonOperator::try_from(&bytes[..2]), Ok(ComparisonOperator::Le));
}

#[test]
fn length_matches_bytes() {
    for op in ALL {
        assert_eq!(op.len(), op.as_bytes().len());
        assert_eq!(op.len(), op.as_str().len());
        assert!(!op.is_empty());
    }
    assert_eq!(ComparisonOperator::Lt.len(), 1);
    assert_eq!(ComparisonOperator::Gt.len(), 1);
    assert_eq!(ComparisonOperator::Ne.len(), 2);
    assert_eq!(ComparisonOperator::Le.len(), 2);
    assert_eq!(ComparisonOperator::Eq.len(), 2);
    assert_eq!(ComparisonOperator::Ge.len(), 2);
}

#[test]
fn exactly_one_predicate_holds() {
    for op in ALL {
        let held = [op.is_ne(), op.is_lt(), op.is_le(), op.is_eq(), op.is_ge(), op.is_gt()];
        assert_eq!(held.iter().filter(|b| **b).count(), 1);
    }
    assert!(ComparisonOperator::Ne.is_ne());
    assert!(ComparisonOperator::Lt.is_lt());
    assert!(ComparisonOperator::Le.is_le());
    assert!(ComparisonOperator::Eq.is_eq());
    assert!(ComparisonOperator::Ge.is_ge());
    assert!(ComparisonOperator::Gt.is_gt());
}

#[test]
fn equality_against_text_is_symmetric() {
    let texts = ["!=", "<", "<=", "==", ">=", ">", "=", " ==", "", "<>"];
    for op in ALL {
        for t in texts {
            let expected = t == op.as_str();
            assert_eq!(op == *t, expected);
            assert_eq!(*t == op, expected);
        }
    }
    assert!(ComparisonOperator::Eq != *"=");
    assert!(*"=" != ComparisonOperator::Eq);
}

#[test]
fn compare_pairs() {
    let (a, b): (u32, u32) = (50, 60);
    assert!(ComparisonOperator::Ne.compare(&a, &b));
    assert!(ComparisonOperator::Lt.compare(&a, &b));
    assert!(ComparisonOperator::Le.compare(&a, &b));
    assert!(!ComparisonOperator::Eq.compare(&a, &b));
    assert!(!ComparisonOperator::Ge.compare(&a, &b));
    assert!(!ComparisonOperator::Gt.compare(&a, &b));
    assert!(ComparisonOperator::Le.compare(&3_u8, &u8::MAX));
    assert!(ComparisonOperator::Ge.compare(&"b", &"a"));
}

#[test]
fn compare_passes_incomparable_values_through() {
    let nan = f64::NAN;
    assert!(ComparisonOperator::Ne.compare(&nan, &nan));
    assert!(!ComparisonOperator::Lt.compare(&nan, &1.0));
    assert!(!ComparisonOperator::Le.compare(&nan, &nan));
    assert!(!ComparisonOperator::Eq.compare(&nan, &nan));
    assert!(!ComparisonOperator::Ge.compare(&1.0, &nan));
    assert!(!ComparisonOperator::Gt.compare(&nan, &1.0));
}

#[test]
fn error_message_is_fixed() {
    let e = ComparisonOperator::try_from("?").unwrap_err();
    assert_eq!(e, Error);
    assert_eq!(e.as_str(), "unable to parse comparison operator");
    let r: &str = e.as_ref();
    assert_eq!(r, "unable to parse comparison operator");
}

#[test]
fn conversions_expose_the_text() {
    let op = ComparisonOperator::Ge;
    let s: &str = op.as_ref();
    let b: &[u8] = op.as_ref();
    assert_eq!(s, ">=");
    assert_eq!(b, b">=");
    assert_eq!(std::borrow::Borrow::<str>::borrow(&op), ">=");
}

#[test]
fn from_str_trims_only_around_the_token() {
    assert_eq!(ComparisonOperator::from_str(" != "), Ok(ComparisonOperator::Ne));
    assert_eq!(ComparisonOperator::from_str("\t=\n"), Ok(ComparisonOperator::Eq));
    assert_eq!(ComparisonOperator::from_str("\r>\u{c}"), Ok(ComparisonOperator::Gt));
    assert_eq!(ComparisonOperator::from_str(" < = "), Err(Error));
    for s in ["", "~", "<>", " ", "=<", " <= ", "="] {
        assert_eq!(ComparisonOperator::from_str(s), ComparisonOperator::try_from(s));
        assert_eq!(ComparisonOperator::from_str(s), ComparisonOperator::try_from(s.as_bytes()));
    }
}
