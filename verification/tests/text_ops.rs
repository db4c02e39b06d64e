use ntfy::text::{
    chars_of, i64_to_string, join_strings, parse_i32_chars, parse_i64_chars, split_strings,
    split_trim_strings, trim_chars, u64_to_decimal, string_of,
};

fn cs(s: &str) -> Vec<char> {
    chars_of(s)
}

#[test]
fn trim_removes_unicode_whitespace() {
    let t = trim_chars(&cs("\u{3000}\t hello world \n\u{a0}"));
    assert_eq!(string_of(&t), "hello world");
    assert_eq!(string_of(&trim_chars(&cs("   "))), "");
}

#[test]
fn split_keeps_empty_pieces() {
    assert_eq!(split_strings(&cs("a,,b"), ','), vec!["a", "", "b"]);
    assert_eq!(split_strings(&cs(""), ','), vec![""]);
    assert_eq!(split_trim_strings(&cs(" a , b "), ','), vec!["a", "b"]);
}

#[test]
fn join_then_split_gives_the_pieces_back() {
    let parts = vec!["x".to_string(), "y z".to_string(), "".to_string(), "w".to_string()];
    let joined = join_strings(&parts, ',');
    assert_eq!(joined, "x,y z,,w");
    assert_eq!(split_strings(&cs(&joined), ','), parts);
}

#[test]
fn decimal_forms() {
    assert_eq!(string_of(&u64_to_decimal(0)), "0");
    assert_eq!(string_of(&u64_to_decimal(18446744073709551615)), "18446744073709551615");
    assert_eq!(i64_to_string(-42), "-42");
    assert_eq!(i64_to_string(i64::MIN), "-9223372036854775808");
}

#[test]
fn integer_parsing_follows_std() {
    for s in ["0", "+5", "-0", "-17", "9223372036854775807", "-9223372036854775808", "", "-", "+", "1a", " 1", "9223372036854775808", "00012"] {
        assert_eq!(parse_i64_chars(&cs(s)), s.parse::<i64>().ok(), "input {:?}", s);
    }
    for s in ["2147483647", "-2147483648", "2147483648", "5", "high"] {
        assert_eq!(parse_i32_chars(&cs(s)), s.parse::<i32>().ok(), "input {:?}", s);
    }
}
