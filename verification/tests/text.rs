use turn_failure_handler::text::{byte_len, decimal_text, join_lines, truncate_utf8};
use turn_failure_handler::trim::{trim, white_space};

#[test]
fn a_text_that_fits_is_kept() {
    assert_eq!(truncate_utf8("", 0), "");
    assert_eq!(truncate_utf8("héllo", 6), "héllo");
    assert_eq!(truncate_utf8("héllo", 5), "...[t");
}

#[test]
fn a_cut_text_ends_in_the_mark() {
    assert_eq!(truncate_utf8("0123456789abcdef", 15), "0...[truncated]");
    assert_eq!(truncate_utf8("0123456789abcdef", 14), "...[truncated]");
    assert_eq!(truncate_utf8("0123456789abcdef", 13), "...[truncated");
    assert_eq!(truncate_utf8("anything", 0), "");
}

#[test]
fn no_character_is_split() {
    let text = "aé漢😀".repeat(10);
    for limit in 0..text.len() {
        let cut = truncate_utf8(&text, limit);
        assert!(cut.len() <= limit);
        assert_eq!(truncate_utf8(&cut, limit), cut);
        if limit > 14 {
            let mut end = limit - 14;
            while !text.is_char_boundary(end) {
                end -= 1;
            }
            assert_eq!(cut, format!("{}...[truncated]", &text[..end]));
        }
    }
}

#[test]
fn the_smaller_of_two_limits_counts() {
    assert_eq!(truncate_utf8(&truncate_utf8("0123456789abcdefghij", 18), 16), "01...[truncated]");
    assert_eq!(truncate_utf8(&truncate_utf8("0123456789abcdefghij", 16), 18), "01...[truncated]");
    let text = "aé漢😀".repeat(4);
    for first in 0..text.len() + 2 {
        for second in 0..text.len() + 2 {
            assert_eq!(
                truncate_utf8(&truncate_utf8(&text, first), second),
                truncate_utf8(&text, first.min(second))
            );
        }
    }
}

#[test]
fn numbers_are_written_in_decimal() {
    for number in [0, 7, 9, 10, 99, 100, 1024, 4294967295, 18446744073709551615] {
        assert_eq!(decimal_text(number), number.to_string());
    }
}

#[test]
fn lines_are_joined_by_line_breaks() {
    assert_eq!(join_lines(&vec![]), "");
    assert_eq!(join_lines(&vec!["a".to_string()]), "a");
    assert_eq!(
        join_lines(&vec!["a".to_string(), "".to_string(), "b".to_string()]),
        "a\n\nb"
    );
}

#[test]
fn lengths_are_in_bytes() {
    assert_eq!(byte_len("aé漢😀"), 10);
}

#[test]
fn white_space_is_what_the_standard_library_takes_it_for() {
    for code in 0..=0x10ffff {
        if let Some(c) = char::from_u32(code) {
            assert_eq!(white_space(c), c.is_whitespace(), "{code:x}");
        }
    }
}

#[test]
fn trimming_removes_white_space_at_both_ends() {
    for text in [
        "",
        "   ",
        "a",
        " a b ",
        "\n\t\u{3000}é\u{2028} x\u{a0}\r\n",
        "\u{200b}kept\u{200b}",
    ] {
        assert_eq!(trim(text), text.trim());
        assert_eq!(trim(&trim(text)), trim(text));
    }
}
