use iced_xml::number::{float_literal, Number};

#[test]
fn float_literals_are_those_that_parse() {
    let samples = [
        "0", "10", "20", "50", "007", "3.14", "3.", ".5", "+1", "-1", "+.5", "-.5", "1e5", "1E5",
        "1e+5", "1e-5", "1.5e10", "1.e5", ".5e1", "inf", "-inf", "+inf", "INF", "Inf", "infinity",
        "Infinity", "INFINITY", "-infinity", "nan", "NaN", "NAN", "-nan", "+NaN", "", " ", "+",
        "-", ".", "+.", "e", "e5", "1e", "1e+", "1e-", "1e5.0", "1.2.3", "1,5", " 1", "1 ", "1_000",
        "0x10", "abc", "notanumber", "--1", "+-1", "1-", "1f32", "1.0f32", "infin", "infinit",
        "infinityy", "na", "nann", "in", "i", "n", "１２", "٣", "1e٣", "½", "1.5é", "é", "∞",
        "12345678901234567890123456789012345678901234567890", "0.000000000000000000000000001",
        "1e400", "1e-400", "00.00", "+0", "-0", "-0.0", "1..2", ".e1", "1.e", "1e1e1", "1e+-1",
        "inf1", "1inf", "+ 1", "nan ", "\t1", "1\n",
    ];
    for sample in samples {
        assert_eq!(float_literal(sample), sample.parse::<f32>().is_ok(), "for {:?}", sample);
        assert_eq!(float_literal(sample), sample.parse::<f64>().is_ok(), "for {:?}", sample);
        assert_eq!(Number::parse(sample).is_some(), sample.parse::<f32>().is_ok());
    }
}

#[test]
fn numbers_keep_their_spelling() {
    assert_eq!(Number::parse("12.50").unwrap().as_str(), "12.50");
    assert_eq!(Number::parse("1e3").unwrap().as_str().parse::<f32>(), Ok(1000.0));
    assert_eq!(Number::parse("abc"), None);
    assert_eq!(Number::zero().as_str(), "0");
    assert_eq!(Number::ten().as_str(), "10");
    assert_eq!(Number::zero().as_str().parse::<f32>(), Ok(0.0));
    assert_eq!(Number::ten().as_str().parse::<f32>(), Ok(10.0));
    assert_eq!(Number::ten().clone(), Number::ten());
}

#[test]
fn numbers_fall_back_to_the_default() {
    assert_eq!(Number::parse_or(None, Number::ten()), Number::ten());
    assert_eq!(Number::parse_or(Some("x"), Number::ten()), Number::ten());
    assert_eq!(Number::parse_or(Some(""), Number::zero()), Number::zero());
    assert_eq!(Number::parse_or(Some("4"), Number::ten()).as_str(), "4");
    assert_eq!(Number::parse_or(Some("10.0"), Number::zero()).as_str(), "10.0");
}
