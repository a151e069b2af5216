use raytracer::text::{char_is_whitespace, chars_of, normalize_input_line, split_lines, split_tokens, text_eq};

fn chars(s: &str) -> Vec<char> {
    s.chars().collect()
}

fn strings(v: Vec<Vec<char>>) -> Vec<String> {
    v.into_iter().map(|c| c.into_iter().collect()).collect()
}

#[test]
fn lines_agree_with_str_lines() {
    let samples = ["", "a", "a\n", "a\nb", "a\r\nb\r\n", "\n\n", "a\r", "a\rb\n", "\r\n", "x\n\ny", "é\nü\r\n"];
    for sample in samples {
        let expected: Vec<String> = sample.lines().map(|l| l.to_string()).collect();
        assert_eq!(strings(split_lines(&chars(sample))), expected, "text {sample:?}");
    }
}

#[test]
fn tokens_agree_with_split_whitespace() {
    let samples = ["", "  ", "a b", " a\tb  c ", "x\u{a0}y", "x\u{3000}y\u{2028}z", "one"];
    for sample in samples {
        let expected: Vec<String> = sample.split_whitespace().map(|t| t.to_string()).collect();
        assert_eq!(strings(split_tokens(&chars(sample))), expected, "text {sample:?}");
    }
}

#[test]
fn whitespace_agrees_with_char_is_whitespace() {
    for code in 0u32..0x3100 {
        if let Some(c) = char::from_u32(code) {
            assert_eq!(char_is_whitespace(c), c.is_whitespace(), "char {code:#x}");
        }
    }
}

#[test]
fn normalizing_drops_comments_and_commas() {
    let line: String = normalize_input_line(&chars("Od 1,0, 0.5 # a comment, with commas")).into_iter().collect();
    assert_eq!(line, "Od 1 0  0.5 ");
    let plain: String = normalize_input_line(&chars("Radius 2")).into_iter().collect();
    assert_eq!(plain, "Radius 2");
    let only_comment: String = normalize_input_line(&chars("# nothing")).into_iter().collect();
    assert_eq!(only_comment, "");
}

#[test]
fn chars_and_equality() {
    assert_eq!(chars_of("héllo"), chars("héllo"));
    assert!(text_eq(&chars("Sphere"), "Sphere"));
    assert!(!text_eq(&chars("sphere"), "Sphere"));
    assert!(!text_eq(&chars("Spheres"), "Sphere"));
}
