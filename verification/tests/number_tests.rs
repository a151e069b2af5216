use raytracer::number::is_number_token;

fn chars(s: &str) -> Vec<char> {
    s.chars().collect()
}

#[test]
fn number_tokens_agree_with_f64_parsing() {
    let samples = [
        "0", "1", "-1", "+1", "3.14", "-3.14", "2.5E10", "2.5e10", "2.5E-10", "5.", ".5", "0.5", ".", "+.", "-",
        "+", "", "inf", "-inf", "+infinity", "Infinity", "INF", "NaN", "nan", "-NaN", "infin", "nana", "e5", "1e",
        "1e+", "1e-5", "1E+5", "1.2.3", "1..2", "..", "1e5e5", "1.e3", ".e3", "1x", "x1", "0x10", "1_000", "١",
        "++1", "+-1", "--1", "1e1000", "00012", "1.5e", "1.5e+", "1.5e+2.0", "inF", "InFiNiTy", "nAn", "in", "i",
        "1,5", "1 5", " 1", "1 ", "\u{0}", "9e-999",
    ];
    for sample in samples {
        let expected = sample.parse::<f64>().is_ok();
        assert_eq!(is_number_token(&chars(sample)), expected, "token {sample:?}");
    }
}

#[test]
fn signs_and_exponents() {
    assert!(is_number_token(&chars("-0.0e-0")));
    assert!(!is_number_token(&chars("-e1")));
    assert!(!is_number_token(&chars("1e+-2")));
}
