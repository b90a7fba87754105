use beatlocker::text::{find_char, parse_decimal, rfind_char, split_extension};

#[test]
fn decimals_parse_like_std() {
    assert_eq!(parse_decimal("0", 255), Some(0));
    assert_eq!(parse_decimal("255", 255), Some(255));
    assert_eq!(parse_decimal("256", 255), None);
    assert_eq!(parse_decimal("+7", 255), Some(7));
    assert_eq!(parse_decimal("+", 255), None);
    assert_eq!(parse_decimal("", 255), None);
    assert_eq!(parse_decimal("-1", 255), None);
    assert_eq!(parse_decimal("12a", 255), None);
    assert_eq!(parse_decimal("007", 255), Some(7));
    assert_eq!(parse_decimal("4294967295", u32::MAX), Some(u32::MAX));
    assert_eq!(parse_decimal("4294967296", u32::MAX), None);
    assert_eq!(parse_decimal("99999999999999999999x", u32::MAX), None);
}

#[test]
fn extensions_split_like_path() {
    assert_eq!(split_extension("Foo - Bar.ogg"), ("Foo - Bar".to_string(), Some("ogg".to_string())));
    assert_eq!(split_extension("a.b.c"), ("a.b".to_string(), Some("c".to_string())));
    assert_eq!(split_extension(".ogg"), (".ogg".to_string(), None));
    assert_eq!(split_extension("noext"), ("noext".to_string(), None));
    assert_eq!(split_extension(".."), ("..".to_string(), None));
    assert_eq!(split_extension("a."), ("a".to_string(), Some("".to_string())));
    assert_eq!(split_extension("é.flac"), ("é".to_string(), Some("flac".to_string())));
}

#[test]
fn chars_are_found() {
    assert_eq!(find_char("a-b-c", '-'), Some(1));
    assert_eq!(rfind_char("a-b-c", '-'), Some(3));
    assert_eq!(find_char("abc", '-'), None);
    assert_eq!(rfind_char("", '-'), None);
}
