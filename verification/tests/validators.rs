use vestalia::validators::{escape_at, is_code_digit, is_supported, is_valid_text, is_valid_vec};

const SYMBOLS: &str = "!@#$()-+&=;:'\"%,./?\u{b0}";

#[test]
fn text_of_the_alphabet_is_valid() {
    assert!(is_valid_text("Hello World"));
    assert!(is_valid_text("abcdefghijklmnopqrstuvwxyz"));
    assert!(is_valid_text("ABCDEFGHIJKLMNOPQRSTUVWXYZ"));
    assert!(is_valid_text("0123456789"));
    assert!(is_valid_text(SYMBOLS));
    assert!(is_valid_text(""));
    assert!(is_valid_text(" "));
    assert!(is_valid_text("Test!"));
    assert!(is_valid_text("My text"));
}

#[test]
fn text_with_code_escapes_is_valid() {
    assert!(is_valid_text("{1}"));
    assert!(is_valid_text("{63}"));
    assert!(is_valid_text("{00}"));
    assert!(is_valid_text("{63}{63}{63}{63}{63} Hello World!{63}{63}{63}{63}{63}"));
    assert!(is_valid_text("a{5}b{12}c"));
    assert!(is_valid_text("{1}{22}"));
}

#[test]
fn text_with_unsupported_character_is_invalid() {
    assert!(!is_valid_text("My text****"));
    assert!(!is_valid_text("*"));
    assert!(!is_valid_text("a_b"));
    assert!(!is_valid_text("a<b"));
    assert!(!is_valid_text("caf\u{e9}"));
    assert!(!is_valid_text("[x]"));
    assert!(!is_valid_text("abc*"));
    assert!(!is_valid_text("*abc"));
    assert!(!is_valid_text("{63}*{63}"));
}

#[test]
fn white_space_other_than_the_space_is_invalid() {
    assert!(!is_valid_text("Hello\nWorld!"));
    assert!(!is_valid_text("a\tb"));
    assert!(!is_valid_text("a\rb"));
    assert!(!is_valid_text("a\u{a0}b"));
    assert!(!is_valid_text("a\u{2003}b"));
    assert!(!is_valid_text("\n"));
}

#[test]
fn digits_outside_0_to_9_are_invalid() {
    assert!(!is_valid_text("\u{663}"));
    assert!(!is_valid_text("12\u{663}"));
    assert!(!is_valid_text("{\u{663}}"));
    assert!(!is_valid_text("{1\u{663}}"));
    assert!(!is_valid_text("\u{ff11}"));
}

#[test]
fn malformed_escape_is_invalid() {
    assert!(!is_valid_text("{123}"));
    assert!(!is_valid_text("{}"));
    assert!(!is_valid_text("{a}"));
    assert!(!is_valid_text("{1"));
    assert!(!is_valid_text("{12"));
    assert!(!is_valid_text("{"));
    assert!(!is_valid_text("}"));
    assert!(!is_valid_text("1}"));
    assert!(!is_valid_text("{{1}}"));
    assert!(!is_valid_text("{1 }"));
    assert!(!is_valid_text("{-1}"));
    assert!(!is_valid_text("abc{1"));
}

#[test]
fn text_validator_ignores_length() {
    let long = "a".repeat(500);
    assert!(is_valid_text(&long));
    let escapes = "{63}".repeat(100);
    assert!(is_valid_text(&escapes));
}

#[test]
fn supported_characters_are_those_of_the_table() {
    for c in "abcxyzABCXYZ0123456789 ".chars() {
        assert!(is_supported(c));
    }
    for c in SYMBOLS.chars() {
        assert!(is_supported(c));
    }
    for c in "*{}[]<>_~^|\\`\n\t\u{e9}\u{663}\u{a0}".chars() {
        assert!(!is_supported(c));
    }
    assert!(is_code_digit('0'));
    assert!(is_code_digit('9'));
    assert!(!is_code_digit('/'));
    assert!(!is_code_digit(':'));
    assert!(!is_code_digit('a'));
    assert!(!is_code_digit('\u{663}'));
}

#[test]
fn escape_is_measured_where_it_starts() {
    assert_eq!(escape_at("{1}", 0), 3);
    assert_eq!(escape_at("{12}", 0), 4);
    assert_eq!(escape_at("ab{7}c", 2), 3);
    assert_eq!(escape_at("ab{7}c", 0), 0);
    assert_eq!(escape_at("{123}", 0), 0);
    assert_eq!(escape_at("{}", 0), 0);
    assert_eq!(escape_at("{1", 0), 0);
    assert_eq!(escape_at("{12", 0), 0);
    assert_eq!(escape_at("{", 0), 0);
    assert_eq!(escape_at("{1}", 3), 0);
    assert_eq!(escape_at("", 0), 0);
}

#[test]
fn validator_agrees_with_the_grammar_as_a_pattern() {
    let pattern =
        regex::Regex::new("^(?:[A-Za-z0-9!@#$()\\-+&=;:'\"%,./?\u{b0} ]|(?:\\{[0-9]{1,2}\\}))*$")
            .unwrap();
    let mut samples: Vec<String> = Vec::new();
    for code in 0u32..0x3000 {
        if let Some(c) = char::from_u32(code) {
            samples.push(c.to_string());
            samples.push(format!("a{}b", c));
            samples.push(format!("{{{}}}", c));
            samples.push(format!("{{1{}}}", c));
            samples.push(format!("{{{}2}}x", c));
        }
    }
    for text in [
        "", "{", "}", "{}", "{1}", "{12}", "{123}", "{1}{2}", "{{1}}", "{1}}", "a{1", "a{12",
        "My text", "My text****", "{63}{63} Hello World!{63}", "Hello\nWorld",
    ] {
        samples.push(text.to_string());
    }
    for text in samples {
        assert_eq!(is_valid_text(&text), pattern.is_match(&text), "text {:?}", text);
    }
}

#[test]
fn grid_of_6_by_22_is_valid() {
    assert!(is_valid_vec(&vec![vec![63; 22]; 6]));
    assert!(is_valid_vec(&vec![vec![-1; 22]; 6]));
    assert!(is_valid_vec(&vec![vec![1000; 22]; 6]));
}

#[test]
fn grid_with_wrong_row_count_is_invalid() {
    assert!(!is_valid_vec(&vec![vec![0; 22]; 5]));
    assert!(!is_valid_vec(&vec![vec![0; 22]; 7]));
    assert!(!is_valid_vec(&Vec::new()));
}

#[test]
fn grid_with_wrong_row_width_is_invalid() {
    let mut short = vec![vec![0; 22]; 6];
    short[3] = vec![0; 21];
    assert!(!is_valid_vec(&short));
    let mut long = vec![vec![0; 22]; 6];
    long[5] = vec![0; 23];
    assert!(!is_valid_vec(&long));
    let mut first = vec![vec![0; 22]; 6];
    first[0] = Vec::new();
    assert!(!is_valid_vec(&first));
}
