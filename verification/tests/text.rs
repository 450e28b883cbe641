use material_ui::text::{
    count_digits, int_to_string, parse_i32, parse_u32, parse_u8, split_chars, trim_chars,
    trim_end_char,
};

fn chars(s: &str) -> Vec<char> {
    s.chars().collect()
}

#[test]
fn integer_rendering() {
    assert_eq!(int_to_string(7, 3), "007");
    assert_eq!(int_to_string(-7, 3), "-07");
    assert_eq!(int_to_string(12345, 2), "12345");
    assert_eq!(int_to_string(i32::MIN, 0), "-2147483648");
    assert_eq!(count_digits(0), 1);
    assert_eq!(count_digits(4294967295), 10);
}

#[test]
fn integer_parsing() {
    assert_eq!(parse_u8(&chars("255")), Some(255));
    assert_eq!(parse_u8(&chars("256")), None);
    assert_eq!(parse_u8(&chars("+7")), Some(7));
    assert_eq!(parse_u8(&chars("-1")), None);
    assert_eq!(parse_u8(&chars("")), None);
    assert_eq!(parse_u32(&chars("0004294967295")), Some(4294967295));
    assert_eq!(parse_u32(&chars("4294967296")), None);
    assert_eq!(parse_i32(&chars("-2147483648")), Some(i32::MIN));
    assert_eq!(parse_i32(&chars("2147483648")), None);
    assert_eq!(parse_i32(&chars("-")), None);
    assert_eq!(parse_i32(&chars("1 2")), None);
}

#[test]
fn trimming_and_splitting() {
    assert_eq!(trim_chars(&chars("\t a b \n")), chars("a b"));
    assert_eq!(trim_end_char(&chars("12+++"), '+'), chars("12"));
    assert_eq!(trim_end_char(&chars("+"), '+'), chars(""));
    let parts = split_chars(&chars("a--b"), '-');
    assert_eq!(parts, vec![chars("a"), chars(""), chars("b")]);
    assert_eq!(split_chars(&chars(""), '-'), vec![chars("")]);
}

