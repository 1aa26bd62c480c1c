use garlemald::ini::IniValue;

#[test]
fn integers_parse_after_trimming() {
    assert_eq!(<i32 as IniValue>::parse("  42 \t"), Some(42));
    assert_eq!(<i32 as IniValue>::parse("+7"), Some(7));
    assert_eq!(<i32 as IniValue>::parse("-2147483648"), Some(i32::MIN));
    assert_eq!(<i32 as IniValue>::parse("2147483648"), None);
    assert_eq!(<i32 as IniValue>::parse("4x"), None);
    assert_eq!(<i32 as IniValue>::parse(""), None);
    assert_eq!(<i32 as IniValue>::parse("+"), None);
    assert_eq!(<i32 as IniValue>::parse("-"), None);
    assert_eq!(<u32 as IniValue>::parse("-3"), None);
    assert_eq!(<u32 as IniValue>::parse("4294967295"), Some(u32::MAX));
    assert_eq!(<u32 as IniValue>::parse("4294967296"), None);
    assert_eq!(<u64 as IniValue>::parse("18446744073709551615"), Some(u64::MAX));
    assert_eq!(<u64 as IniValue>::parse("99999999999999999999999"), None);
    assert_eq!(<i64 as IniValue>::parse(" -9223372036854775808"), Some(i64::MIN));
}

#[test]
fn booleans_are_nonzero_integers() {
    assert_eq!(<bool as IniValue>::parse("1"), Some(true));
    assert_eq!(<bool as IniValue>::parse(" 2 "), Some(true));
    assert_eq!(<bool as IniValue>::parse("-5"), Some(true));
    assert_eq!(<bool as IniValue>::parse("0"), Some(false));
    assert_eq!(<bool as IniValue>::parse("true"), None);
    assert_eq!(true.render(), "1");
    assert_eq!(false.render(), "0");
}

#[test]
fn values_render_as_decimal_text() {
    assert_eq!((-123i32).render(), "-123");
    assert_eq!(0u32.render(), "0");
    assert_eq!(i64::MIN.render(), "-9223372036854775808");
    assert_eq!(u64::MAX.render(), "18446744073709551615");
    assert_eq!(<String as IniValue>::parse(" raw text "), Some(" raw text ".to_string()));
    assert_eq!("abc".to_string().render(), "abc");
}

#[test]
fn render_then_parse_gives_the_value_back() {
    for v in [i32::MIN, -1, 0, 1, 77, i32::MAX] {
        assert_eq!(<i32 as IniValue>::parse(&v.render()), Some(v));
    }
}
