use erract::text::{push_decimal, str_eq, write_escaped};

#[test]
fn escape_agrees_with_std_on_every_character() {
    let mut buf = String::new();
    let mut code: u32 = 0;
    while code <= 0x10ffff {
        if let Some(c) = char::from_u32(code) {
            buf.clear();
            write_escaped(&mut buf, c.encode_utf8(&mut [0u8; 4]));
            let expected = match c {
                '"' => "\\\"".to_string(),
                '\\' => "\\\\".to_string(),
                '\n' => "\\n".to_string(),
                '\r' => "\\r".to_string(),
                '\t' => "\\t".to_string(),
                c if c.is_control() => format!("\\u{:04x}", c as u32),
                c => c.to_string(),
            };
            assert_eq!(buf, expected);
        }
        code += 1;
    }
}

#[test]
fn escape_appends_in_order() {
    let mut buf = String::from(">");
    write_escaped(&mut buf, "a\"b\\c\nd\re\tf\u{0}g\u{1f}h\u{7f}i\u{80}j\u{9f}k\u{a0}l");
    assert_eq!(
        buf,
        ">a\\\"b\\\\c\\nd\\re\\tf\\u0000g\\u001fh\\u007fi\\u0080j\\u009fk\u{a0}l"
    );
    write_escaped(&mut buf, "");
    assert!(buf.ends_with("\u{a0}l"));
}

#[test]
fn decimal_appends_without_leading_zeros() {
    let mut buf = String::from("n=");
    push_decimal(&mut buf, 0);
    push_decimal(&mut buf, 9);
    push_decimal(&mut buf, 10);
    push_decimal(&mut buf, 99);
    push_decimal(&mut buf, 100);
    push_decimal(&mut buf, 1001);
    push_decimal(&mut buf, 65535);
    assert_eq!(buf, "n=091099100100165535");
}

#[test]
fn text_equality_is_by_characters() {
    assert!(str_eq("", ""));
    assert!(str_eq("abc", "abc"));
    assert!(str_eq("é✓", "é✓"));
    assert!(!str_eq("abc", "abd"));
    assert!(!str_eq("abc", "ab"));
    assert!(!str_eq("", "a"));
    assert!(!str_eq("e\u{301}", "é"));
}
