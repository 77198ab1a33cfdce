use ekur::strings::{parse_i32, parse_string_line, StringLineError, StringTable};

#[test]
fn missing_string_falls_back_to_the_id() {
    let mut t = StringTable::new();
    t.insert(5, "Five".to_string());
    assert_eq!(t.text_for(999), "999");
    assert_eq!(t.text_for(-12), "-12");
    assert_eq!(t.text_for(5), "Five");
    assert!(t.lookup(999).is_none());
}

#[test]
fn string_lines_split_at_the_first_colon() {
    assert_eq!(parse_string_line("42:Hello: world"), Ok((42, "Hello: world".to_string())));
    assert_eq!(parse_string_line("-7:"), Ok((-7, String::new())));
    assert_eq!(parse_string_line("no separator"), Err(StringLineError::MissingSeparator));
    assert_eq!(parse_string_line("x1:text"), Err(StringLineError::InvalidId));
    assert_eq!(parse_string_line(":text"), Err(StringLineError::InvalidId));
}

#[test]
fn integers_parse_within_range() {
    assert_eq!(parse_i32("2147483647"), Some(i32::MAX));
    assert_eq!(parse_i32("-2147483648"), Some(i32::MIN));
    assert_eq!(parse_i32("2147483648"), None);
    assert_eq!(parse_i32("+15"), Some(15));
    assert_eq!(parse_i32("-"), None);
    assert_eq!(parse_i32(""), None);
    assert_eq!(parse_i32("99999999999999999999"), None);
    assert_eq!(StringTable::new().text_for(i32::MIN), "-2147483648");
}
