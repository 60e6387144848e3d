use memedsn::number::{is_float, parse_i32, DsnNumber};

#[test]
fn floating_point_literals() {
    for s in [
        "0", "7", "007", "3.14", "-3.14", "+3.14", "5.", ".5", "-.5", "+5.", "2.5E10", "2.5e10",
        "2.5E-10", "2.5e+10", "1e0", ".5e3", "5.e3", "inf", "-inf", "+infinity", "NaN", "nan",
        "INF", "Infinity", "-NAN", "1e999", "0.000000000000000000000000000001",
        "123456789012345678901234567890",
    ] {
        assert!(is_float(s), "{}", s);
        assert_eq!(is_float(s), s.parse::<f64>().is_ok(), "{}", s);
        assert_eq!(DsnNumber::parse(s).unwrap().as_str(), s);
    }
}

#[test]
fn texts_that_are_no_floating_point_literals() {
    for s in [
        "", ".", "+", "-", "e", "e5", ".e5", "1e", "1e+", "1e-", "+-1", "--1", "1.2.3", "1 ", " 1",
        "1_000", "0x10", "1f", "1e5.0", "1e5e5", "in", "infinit", "infinityy", "na", "nann", "1/2",
        "١", "a", "1,5", "+e1", "inf1", "1inf",
    ] {
        assert!(!is_float(s), "{}", s);
        assert_eq!(is_float(s), s.parse::<f64>().is_ok(), "{}", s);
        assert!(DsnNumber::parse(s).is_none(), "{}", s);
    }
}

#[test]
fn zero_is_written_0() {
    assert_eq!(DsnNumber::zero().as_str(), "0");
    assert_eq!(DsnNumber::zero(), DsnNumber::parse("0").unwrap());
    assert_ne!(DsnNumber::zero(), DsnNumber::parse("0.0").unwrap());
    assert_eq!(DsnNumber::zero().clone(), DsnNumber::zero());
}

#[test]
fn integers() {
    assert_eq!(parse_i32("0"), Some(0));
    assert_eq!(parse_i32("1000"), Some(1000));
    assert_eq!(parse_i32("+5"), Some(5));
    assert_eq!(parse_i32("-5"), Some(-5));
    assert_eq!(parse_i32("-0"), Some(0));
    assert_eq!(parse_i32("007"), Some(7));
    assert_eq!(parse_i32("2147483647"), Some(i32::MAX));
    assert_eq!(parse_i32("-2147483648"), Some(i32::MIN));
    assert_eq!(parse_i32("00000000000000000000002147483647"), Some(i32::MAX));
}

#[test]
fn texts_that_are_no_integers() {
    for s in [
        "", "+", "-", "2147483648", "-2147483649", "99999999999999999999", "1.0", "1e3", " 1", "1 ",
        "0x1", "1_0", "++1", "+-1", "a", "١",
    ] {
        assert_eq!(parse_i32(s), None, "{}", s);
        assert!(s.parse::<i32>().is_err(), "{}", s);
    }
}

fn words(alphabet: &[char], longest: usize) -> Vec<String> {
    let mut all = vec![String::new()];
    let mut last = vec![String::new()];
    for _ in 0..longest {
        let mut next = Vec::new();
        for w in &last {
            for c in alphabet {
                let mut longer = w.clone();
                longer.push(*c);
                next.push(longer);
            }
        }
        all.extend(next.iter().cloned());
        last = next;
    }
    all
}

#[test]
fn floating_point_literals_are_those_of_the_standard_library() {
    for w in words(&['+', '-', '.', 'e', 'E', '0', '7', ' '], 5) {
        assert_eq!(is_float(&w), w.parse::<f64>().is_ok(), "{:?}", w);
    }
    for w in words(&['i', 'N', 'f', 'a', 't', 'y', '-', '1'], 5) {
        assert_eq!(is_float(&w), w.parse::<f64>().is_ok(), "{:?}", w);
    }
    for sign in ["", "+", "-"] {
        for word in ["inf", "infinity", "nan", "INFINITY", "iNfInItY", "infinit", "infinityy"] {
            let w = format!("{}{}", sign, word);
            assert_eq!(is_float(&w), w.parse::<f64>().is_ok(), "{:?}", w);
        }
    }
}

#[test]
fn integers_are_those_of_the_standard_library() {
    for w in words(&['+', '-', '0', '1', '9', 'x'], 6) {
        assert_eq!(parse_i32(&w), w.parse::<i32>().ok(), "{:?}", w);
    }
    for n in [
        2147483645i64, 2147483646, 2147483647, 2147483648, 2147483649, 2147483650, 4294967295,
        4294967296, 21474836470, 9223372036854775807,
    ] {
        for w in [format!("{}", n), format!("-{}", n), format!("+{}", n), format!("000{}", n)] {
            assert_eq!(parse_i32(&w), w.parse::<i32>().ok(), "{:?}", w);
        }
    }
}
