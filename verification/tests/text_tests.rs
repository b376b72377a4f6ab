use cf_ddns::text::{chars_of, is_whitespace, same_text, split_and_trim, to_decimal, trim_range};

#[test]
fn split_two_labels() {
    assert_eq!(split_and_trim("www,*", ','), vec!["www".to_string(), "*".to_string()]);
}

#[test]
fn split_single_label() {
    assert_eq!(split_and_trim("api", ','), vec!["api".to_string()]);
}

#[test]
fn split_trims_each_piece() {
    assert_eq!(
        split_and_trim("  www , api\t,\n mail  ", ','),
        vec!["www".to_string(), "api".to_string(), "mail".to_string()]
    );
}

#[test]
fn split_keeps_empty_pieces() {
    assert_eq!(
        split_and_trim("www,,api,", ','),
        vec!["www".to_string(), String::new(), "api".to_string(), String::new()]
    );
}

#[test]
fn split_of_nothing_is_one_empty_piece() {
    assert_eq!(split_and_trim("", ','), vec![String::new()]);
    assert_eq!(split_and_trim("   ", ','), vec![String::new()]);
}

#[test]
fn split_keeps_order_and_duplicates() {
    assert_eq!(
        split_and_trim("b,a,b,a", ','),
        vec!["b".to_string(), "a".to_string(), "b".to_string(), "a".to_string()]
    );
}

#[test]
fn split_keeps_inner_white_space() {
    assert_eq!(split_and_trim(" a b , c", ','), vec!["a b".to_string(), "c".to_string()]);
}

#[test]
fn split_handles_wide_characters() {
    assert_eq!(
        split_and_trim("\u{3000}caf\u{e9}\u{a0},\u{2003}b\u{fc}ro", ','),
        vec!["caf\u{e9}".to_string(), "b\u{fc}ro".to_string()]
    );
}

#[test]
fn split_agrees_with_std() {
    let inputs = ["www,*", " a , b ", ",", ",,", "x", "", " , ,x, ", "a,b,c,d,e", "\t\n,\r"];
    for raw in inputs {
        let expected: Vec<String> = raw.split(',').map(|s| s.trim().to_string()).collect();
        assert_eq!(split_and_trim(raw, ','), expected, "input {:?}", raw);
    }
}

#[test]
fn white_space_agrees_with_std() {
    for code in 0u32..=0x10FFFF {
        if let Some(c) = char::from_u32(code) {
            assert_eq!(is_whitespace(c), c.is_whitespace(), "code point {:#x}", code);
        }
    }
}

#[test]
fn white_space_examples() {
    assert!(is_whitespace(' '));
    assert!(is_whitespace('\t'));
    assert!(is_whitespace('\n'));
    assert!(is_whitespace('\u{a0}'));
    assert!(is_whitespace('\u{3000}'));
    assert!(!is_whitespace('a'));
    assert!(!is_whitespace('*'));
    assert!(!is_whitespace('\u{200b}'));
}

#[test]
fn trim_range_bounds() {
    let chars = chars_of("  ab c  ");
    assert_eq!(trim_range(&chars, 0, chars.len()), (2, 6));
    assert_eq!(trim_range(&chars, 3, 5), (3, 4));
    assert_eq!(trim_range(&chars, 0, 2), (2, 2));
    assert_eq!(trim_range(&chars, 4, 4), (4, 4));
}

#[test]
fn chars_of_keeps_every_character() {
    assert_eq!(chars_of("a\u{e9}*"), vec!['a', '\u{e9}', '*']);
    assert_eq!(chars_of(""), Vec::<char>::new());
}

#[test]
fn same_text_compares_exactly() {
    assert!(same_text("www.example.com", "www.example.com"));
    assert!(!same_text("www.example.com", "WWW.example.com"));
    assert!(!same_text("www", "www "));
    assert!(same_text("", ""));
    assert!(!same_text("a", ""));
}

#[test]
fn decimal_of_small_and_large_numbers() {
    assert_eq!(to_decimal(0), "0");
    assert_eq!(to_decimal(7), "7");
    assert_eq!(to_decimal(10), "10");
    assert_eq!(to_decimal(42), "42");
    assert_eq!(to_decimal(1234567890), "1234567890");
    assert_eq!(to_decimal(usize::MAX), usize::MAX.to_string());
}
