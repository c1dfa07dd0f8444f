use test_with::number::{parse_count, parse_i32, write_count};
use test_with::split::{has_text, join_chars, matches_at, split_chars, split_entries};
use test_with::text::{chars_of, string_of};
use test_with::trim::{is_space_char, parse_entries, remove_char, trim_chars, unquote_chars};

fn chars(s: &str) -> Vec<char> {
    s.chars().collect()
}

fn strings(v: Vec<Vec<char>>) -> Vec<String> {
    v.iter().map(|p| p.iter().collect()).collect()
}

#[test]
fn characters_and_strings_convert_both_ways() {
    assert_eq!(chars_of("héllo, wörld"), chars("héllo, wörld"));
    assert_eq!(string_of(&chars("héllo, wörld")), "héllo, wörld");
    assert_eq!(string_of(&chars("")), "");
}

#[test]
fn split_at_commas() {
    assert_eq!(strings(split_entries(&chars("a,b,c"))), vec!["a", "b", "c"]);
    assert_eq!(strings(split_entries(&chars(""))), vec![""]);
    assert_eq!(strings(split_entries(&chars(","))), vec!["", ""]);
    assert_eq!(strings(split_entries(&chars("a,,b,"))), vec!["a", "", "b", ""]);
    assert_eq!(strings(split_entries(&chars("abc"))), vec!["abc"]);
}

#[test]
fn split_at_a_longer_separator() {
    let bars = chars("||");
    assert_eq!(strings(split_chars(&chars("a||b"), &bars)), vec!["a", "b"]);
    assert_eq!(strings(split_chars(&chars("a|||b"), &bars)), vec!["a", "|b"]);
    assert_eq!(strings(split_chars(&chars("a||||b"), &bars)), vec!["a", "", "b"]);
    assert_eq!(strings(split_chars(&chars("a|b"), &bars)), vec!["a|b"]);
    assert_eq!(strings(split_chars(&chars("||"), &bars)), vec!["", ""]);
    assert_eq!(strings(split_chars(&chars("ab"), &chars(""))), vec!["ab"]);
}

#[test]
fn split_agrees_with_the_standard_library() {
    for text in ["", "a", ",", "a,b", ",a,,b,", "x||y|z||", "|||", "||||"] {
        for pat in [",", "||", "|"] {
            let expected: Vec<&str> = text.split(pat).collect();
            assert_eq!(strings(split_chars(&chars(text), &chars(pat))), expected);
        }
    }
}

#[test]
fn join_puts_the_separator_between() {
    let parts = vec![chars("a"), chars(""), chars("bc")];
    assert_eq!(string_of(&join_chars(&parts, &chars(", "))), "a, , bc");
    assert_eq!(string_of(&join_chars(&vec![chars("a")], &chars(", "))), "a");
    assert_eq!(string_of(&join_chars(&vec![], &chars(", "))), "");
}

#[test]
fn join_undoes_split() {
    for text in ["", "a", ",", "a,b", ",a,,b,", "x||y|z||"] {
        for pat in [",", "||"] {
            let pieces = split_chars(&chars(text), &chars(pat));
            assert_eq!(string_of(&join_chars(&pieces, &chars(pat))), text);
        }
    }
}

#[test]
fn finding_a_text() {
    assert!(has_text(&chars("a||b"), &chars("||")));
    assert!(!has_text(&chars("a|b"), &chars("||")));
    assert!(has_text(&chars("abc"), &chars("")));
    assert!(has_text(&chars(""), &chars("")));
    assert!(!has_text(&chars(""), &chars("a")));
    assert!(matches_at(&chars("abc"), &chars("bc"), 1));
    assert!(!matches_at(&chars("abc"), &chars("bc"), 2));
    assert!(!matches_at(&chars("abc"), &chars("bc"), 7));
}

#[test]
fn trimming_white_space() {
    assert_eq!(string_of(&trim_chars(&chars("\t FOO \n"))), "FOO");
    assert_eq!(string_of(&trim_chars(&chars("FOO BAR"))), "FOO BAR");
    assert_eq!(string_of(&trim_chars(&chars(" \t\n"))), "");
    assert_eq!(string_of(&trim_chars(&chars(""))), "");
    assert_eq!(string_of(&trim_chars(&chars("\u{a0}\u{3000}x\u{2003}"))), "x");
}

#[test]
fn white_space_is_that_of_the_standard_library() {
    let mut c = 0u32;
    while c < 0x11000 {
        if let Some(ch) = char::from_u32(c) {
            assert_eq!(is_space_char(ch), ch.is_whitespace(), "U+{:04X}", c);
        }
        c += 1;
    }
}

#[test]
fn stripping_quotes() {
    assert_eq!(string_of(&unquote_chars(&chars("\"/etc/hosts\""))), "/etc/hosts");
    assert_eq!(string_of(&unquote_chars(&chars("\"\"a\"b\""))), "a\"b");
    assert_eq!(string_of(&unquote_chars(&chars("\"\""))), "");
    assert_eq!(string_of(&unquote_chars(&chars("plain"))), "plain");
}

#[test]
fn removing_blanks() {
    assert_eq!(string_of(&remove_char(&chars(" a b  c "), ' ')), "abc");
    assert_eq!(string_of(&remove_char(&chars("a\tb"), ' ')), "a\tb");
    assert_eq!(string_of(&remove_char(&chars(""), ' ')), "");
}

#[test]
fn entries_are_trimmed() {
    assert_eq!(
        strings(parse_entries(&chars("\tPATH,\n\tHOME\n"))),
        vec!["PATH", "HOME"]
    );
    assert_eq!(strings(parse_entries(&chars(" , "))), vec!["", ""]);
}

#[test]
fn counts_are_read() {
    assert_eq!(parse_count(&chars("0")), Some(0));
    assert_eq!(parse_count(&chars("32")), Some(32));
    assert_eq!(parse_count(&chars("+7")), Some(7));
    assert_eq!(parse_count(&chars("007")), Some(7));
    assert_eq!(parse_count(&chars("")), None);
    assert_eq!(parse_count(&chars("+")), None);
    assert_eq!(parse_count(&chars("-1")), None);
    assert_eq!(parse_count(&chars("1 ")), None);
    assert_eq!(parse_count(&chars("1_000")), None);
    assert_eq!(parse_count(&chars("12a")), None);
    assert_eq!(parse_count(&chars("18446744073709551615")), "18446744073709551615".parse().ok());
    assert_eq!(parse_count(&chars("18446744073709551616")), None);
    assert_eq!(parse_count(&chars("99999999999999999999999")), None);
}

#[test]
fn counts_are_read_as_the_standard_library_reads_them() {
    for text in ["", "+", "-", "0", "+0", "-0", "1", "+12", "١٢", "4294967295", "4294967296", "1e3", " 1"] {
        assert_eq!(parse_count(&chars(text)), text.parse::<usize>().ok(), "{}", text);
        assert_eq!(parse_i32(&chars(text)), text.parse::<i32>().ok(), "{}", text);
    }
}

#[test]
fn signed_numbers_are_read() {
    assert_eq!(parse_i32(&chars("-12")), Some(-12));
    assert_eq!(parse_i32(&chars("+8")), Some(8));
    assert_eq!(parse_i32(&chars("2147483647")), Some(2147483647));
    assert_eq!(parse_i32(&chars("2147483648")), None);
    assert_eq!(parse_i32(&chars("-2147483648")), Some(-2147483648));
    assert_eq!(parse_i32(&chars("-2147483649")), None);
    assert_eq!(parse_i32(&chars("--1")), None);
    assert_eq!(parse_i32(&chars("5.5")), None);
}

#[test]
fn counts_are_written() {
    assert_eq!(string_of(&write_count(0)), "0");
    assert_eq!(string_of(&write_count(7)), "7");
    assert_eq!(string_of(&write_count(10)), "10");
    assert_eq!(string_of(&write_count(1234567890)), "1234567890");
    assert_eq!(string_of(&write_count(usize::MAX)), usize::MAX.to_string());
}

#[test]
fn written_counts_read_back() {
    for n in [0usize, 1, 9, 10, 99, 100, 101, 65535, usize::MAX] {
        assert_eq!(parse_count(&write_count(n)), Some(n));
    }
}
