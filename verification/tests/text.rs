use manga_extensions::text::{decimal, is_white_space, join, replace, split_on, trim};

#[test]
fn split_on_gives_one_more_piece_than_separators() {
    assert_eq!(split_on("a, b,,c", ','), vec!["a", " b", "", "c"]);
    assert_eq!(split_on("", ','), vec![""]);
    assert_eq!(split_on(",", ','), vec!["", ""]);
}

#[test]
fn trim_strips_both_ends() {
    assert_eq!(trim("  big  hat \n"), "big  hat");
    assert_eq!(trim(" \t "), "");
    assert_eq!(trim(""), "");
}

#[test]
fn replace_works_from_left_to_right() {
    assert_eq!(replace("aaa", "aa", "b"), "ba");
    assert_eq!(replace("a-b-c", "-", ""), "abc");
    assert_eq!(replace("abc", "", "-"), "-a-b-c-");
    assert_eq!(replace("abc", "abcd", "x"), "abc");
}

#[test]
fn decimal_writes_digits() {
    assert_eq!(decimal(0), "0");
    assert_eq!(decimal(7), "7");
    assert_eq!(decimal(1205), "1205");
    assert_eq!(decimal(u64::MAX as u128), "18446744073709551615");
    assert_eq!(decimal(u128::MAX), "340282366920938463463374607431768211455");
}

#[test]
fn join_puts_separator_between() {
    assert_eq!(join(&vec!["a".to_string(), "b".to_string()], ", "), "a, b");
    assert_eq!(join(&vec![], ", "), "");
    assert_eq!(join(&vec!["a".to_string()], ", "), "a");
}

#[test]
fn white_space_is_the_eleven_ranges() {
    for code in 0u32..=0x10FFFF {
        if let Some(c) = char::from_u32(code) {
            let listed = (0x09..=0x0D).contains(&code)
                || [0x20, 0x85, 0xA0, 0x1680, 0x2028, 0x2029, 0x202F, 0x205F, 0x3000].contains(&code)
                || (0x2000..=0x200A).contains(&code);
            assert_eq!(is_white_space(c), listed, "code point {:#x}", code);
            let text = format!("{}x{}", c, c);
            assert_eq!(trim(&text) == "x", listed, "code point {:#x}", code);
        }
    }
}

#[test]
fn white_space_agrees_with_the_standard_library() {
    for code in 0u32..=0x10FFFF {
        if let Some(c) = char::from_u32(code) {
            assert_eq!(is_white_space(c), c.is_whitespace(), "code point {:#x}", code);
        }
    }
    for text in ["  a b \t\n", "\u{3000}wide\u{2003}", "", " \u{85}\u{a0} ", "plain"] {
        assert_eq!(trim(text), text.trim());
    }
}
