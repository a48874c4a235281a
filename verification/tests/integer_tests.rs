use gert::integer::Integer;

fn n(text: &str) -> Integer {
    Integer::parse(text).unwrap()
}

#[test]
fn integer_reads_signed_decimals() {
    for text in ["0", "1500", "+5", "-17", "-0", "007", "2147483648", "99999999999999999999999"] {
        assert!(Integer::parse(text).is_some(), "{}", text);
    }
    assert!(n("007").equals(&n("7")));
    assert!(n("+5").equals(&n("5")));
    assert!(n("-0").equals(&n("0")));
    assert!(n("-0").equals(&Integer::zero()));
    assert!(n("0000").equals(&Integer::zero()));
}

#[test]
fn integer_rejects_what_is_no_number() {
    for text in ["", "+", "-", "12a", " 1", "1 ", "--1", "+-1", "1.5", "٣", "0x10", "1e3", "1_000"] {
        assert!(Integer::parse(text).is_none(), "{}", text);
    }
}

#[test]
fn integer_comparison_is_numeric() {
    let texts = [
        "-100000000000000000000000000000",
        "-2147483649",
        "-10",
        "-9",
        "-1",
        "0",
        "1",
        "9",
        "10",
        "11",
        "99",
        "100",
        "2147483647",
        "2147483648",
        "99999999999999999999999999999",
        "100000000000000000000000000000",
    ];
    for (i, a) in texts.iter().enumerate() {
        for (j, b) in texts.iter().enumerate() {
            let expected = if i > j {
                1
            } else if i < j {
                -1
            } else {
                0
            };
            assert_eq!(n(a).compare(&n(b)), expected, "{} against {}", a, b);
            assert_eq!(n(a).exceeds(&n(b)), i > j, "{} against {}", a, b);
            assert_eq!(n(a).equals(&n(b)), i == j, "{} against {}", a, b);
        }
    }
}

#[test]
fn integer_comparison_agrees_with_machine_integers() {
    let values: [i64; 9] = [i64::MIN + 1, -4096, -1, 0, 1, 9, 10, 4096, i64::MAX];
    for a in values {
        for b in values {
            let expected = if a > b {
                1
            } else if a < b {
                -1
            } else {
                0
            };
            assert_eq!(n(&a.to_string()).compare(&n(&b.to_string())), expected);
        }
    }
}

#[test]
fn integer_comparison_ignores_leading_zeros() {
    assert_eq!(n("0010").compare(&n("9")), 1);
    assert_eq!(n("9").compare(&n("0010")), -1);
    assert_eq!(n("000").compare(&n("0")), 0);
    assert_eq!(n("-0005").compare(&n("-5")), 0);
    assert_eq!(n("-0").compare(&n("+0")), 0);
    assert_eq!(n("-0").compare(&n("1")), -1);
    assert_eq!(n("1").compare(&n("-0")), 1);
}

#[test]
fn integer_duplicate_is_the_same_number() {
    let a = n("-12345678901234567890");
    assert!(a.duplicate().equals(&a));
    assert!(Integer::zero().duplicate().equals(&n("0")));
}
