use harmony::numbers::{parse_i32_exec, parse_unsigned_exec, u64_to_string};
use harmony::text::{
    join_strings, split_whitespace, str_find, str_replace, str_trim,
    str_trim_start_matches,
};

#[test]
fn trim_removes_unicode_whitespace_at_both_ends() {
    assert_eq!(str_trim("\u{3000} \t hello world \n\u{a0}"), "hello world");
    assert_eq!(str_trim("   "), "");
}

#[test]
fn split_whitespace_matches_std() {
    let text = "  play\u{2003}never  gonna\tgive you up ";
    let ours = split_whitespace(text);
    let std_words: Vec<String> = text.split_whitespace().map(|s| s.to_string()).collect();
    assert_eq!(ours, std_words);
    assert!(split_whitespace(" \n ").is_empty());
}

#[test]
fn join_matches_std() {
    let parts = vec!["a".to_string(), "bb".to_string(), "".to_string(), "c".to_string()];
    assert_eq!(join_strings(&parts, ", "), parts.join(", "));
    assert_eq!(join_strings(&Vec::new(), " "), "");
}

#[test]
fn replace_matches_std() {
    for (s, p, r) in [("<@!123>", "<@", ""), ("aaaa", "aa", "b"), ("x{title}y{title}", "{title}", "T"), ("abc", "zz", "q")] {
        assert_eq!(str_replace(s, p, r), s.replace(p, r));
    }
}

#[test]
fn trim_start_matches_removes_every_leading_copy() {
    assert_eq!(str_trim_start_matches("##ff00aa", "#"), "ff00aa");
    assert_eq!(str_trim_start_matches("antinuke_wl:antinuke_wl:42", "antinuke_wl:"), "42");
}

#[test]
fn find_gives_the_first_character_position() {
    assert_eq!(str_find("postgres://u:p@h@x", "@"), Some(14));
    assert_eq!(str_find("redis://host", "@"), None);
}

#[test]
fn unsigned_parsing_matches_std() {
    for s in ["20", "+7", "", "+", "-1", "4294967295", "4294967296", "12a", "007"] {
        assert_eq!(parse_unsigned_exec(s, 10, u32::MAX as u64).map(|v| v as u32), s.parse::<u32>().ok(), "{s}");
    }
    for s in ["BEBEBE", "ff", "FFFFFFFF", "100000000", "#fff", "+a"] {
        assert_eq!(parse_unsigned_exec(s, 16, u32::MAX as u64).map(|v| v as u32), u32::from_str_radix(s, 16).ok(), "{s}");
    }
    assert_eq!(parse_unsigned_exec("18446744073709551615", 10, u64::MAX), Some(u64::MAX));
    assert_eq!(parse_unsigned_exec("18446744073709551616", 10, u64::MAX), None);
}

#[test]
fn signed_parsing_matches_std() {
    for s in ["0", "-0", "-2147483648", "2147483647", "2147483648", "-2147483649", "+5", "-", "3x", ""] {
        assert_eq!(parse_i32_exec(s), s.parse::<i32>().ok(), "{s}");
    }
}

#[test]
fn decimal_text_matches_display() {
    for n in [0u64, 7, 10, 99, 1234567890, u64::MAX] {
        assert_eq!(u64_to_string(n), n.to_string());
    }
}
