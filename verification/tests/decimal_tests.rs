use indiv_proj2::Decimal;

fn accepted(text: &str) -> bool {
    Decimal::parse(text).is_some()
}

#[test]
fn plain_numbers_are_decimals() {
    for text in ["3.14", "-3.14", "7", "007", "0.5", "5.", ".5", "+1", "-0", "10", "1.50", "0.8"] {
        assert!(accepted(text), "{}", text);
    }
}

#[test]
fn numbers_with_an_exponent_are_decimals() {
    for text in ["2.5E10", "2.5e10", "2.5E-10", "1e5", "1E+5", ".5e1", "5.e-3", "-1e0"] {
        assert!(accepted(text), "{}", text);
    }
}

#[test]
fn the_special_words_are_decimals_in_either_case() {
    for text in ["inf", "-inf", "+infinity", "NaN", "nan", "INF", "Infinity", "iNfInItY", "-NAN"] {
        assert!(accepted(text), "{}", text);
    }
}

#[test]
fn other_texts_are_no_decimals() {
    for text in [
        "", "+", "-", ".", "+.", "e5", "1e", "1e+", "1e-", " 1", "1 ", "1_000", "abc", "1.2.3",
        "infinit", "infinityy", "in", "nane", "0x10", "1,5", "--1", "+-1", "1e5.0", "1ee5", "1.e",
        "١", "1\u{0660}", "ⅰnf", "1\n", "$1.20",
    ] {
        assert!(!accepted(text), "{:?}", text);
    }
}

#[test]
fn a_decimal_keeps_its_text() {
    for text in ["0.5", "+1.50", "1e5", "NaN", "007"] {
        assert_eq!(Decimal::parse(text).unwrap().as_str(), text);
        assert_eq!(Decimal::parse(text).unwrap().clone().as_str(), text);
    }
}

#[test]
fn a_decimal_reads_as_the_number_it_spells() {
    assert_eq!(Decimal::parse("0.5").unwrap().as_str().parse::<f64>(), Ok(0.5));
    assert_eq!(Decimal::parse("1.5").unwrap().as_str().parse::<f64>(), Ok(1.5));
    assert_eq!(Decimal::parse("-2.5e1").unwrap().as_str().parse::<f64>(), Ok(-25.0));
    assert_eq!(Decimal::parse("inf").unwrap().as_str().parse::<f64>(), Ok(f64::INFINITY));
}

/// Every text over the alphabet, up to the given length.
fn texts(alphabet: &[char], length: usize) -> Vec<String> {
    let mut all = vec![String::new()];
    let mut last = vec![String::new()];
    for _ in 0..length {
        let mut next = Vec::new();
        for text in &last {
            for c in alphabet {
                let mut longer = text.clone();
                longer.push(*c);
                next.push(longer);
            }
        }
        all.extend(next.iter().cloned());
        last = next;
    }
    all
}

#[test]
fn the_decimals_are_the_texts_that_read_as_binary_floating_point_numbers() {
    for text in texts(&['+', '-', '.', 'e', 'E', '0', '7', ' '], 5) {
        assert_eq!(accepted(&text), text.parse::<f64>().is_ok(), "{:?}", text);
    }
}

#[test]
fn the_special_words_are_those_that_read_as_binary_floating_point_numbers() {
    for text in texts(&['i', 'n', 'f', 'a', 'N', 'I', '-', 't', 'y'], 5) {
        assert_eq!(accepted(&text), text.parse::<f64>().is_ok(), "{:?}", text);
    }
    for text in ["infinity", "INFINITY", "+Infinity", "-infinitY", "infinit", "infinityy", "infinite"] {
        assert_eq!(accepted(text), text.parse::<f64>().is_ok(), "{:?}", text);
    }
}

#[test]
fn what_is_printed_for_a_number_is_a_decimal() {
    for number in [0.0, 0.5, 1.2, -3.25, 1e21, 1e-7, f64::MAX, f64::MIN_POSITIVE, f64::INFINITY, f64::NEG_INFINITY, f64::NAN] {
        let text = format!("{}", number);
        assert!(accepted(&text), "{}", text);
    }
}
