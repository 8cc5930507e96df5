use function_target::text::{
    decimal_string, parse_index, replace_line_feeds, right_align, to_chars, trim, white_space,
};

#[test]
fn decimal_of_small_and_large_numbers() {
    assert_eq!(decimal_string(0), "0");
    assert_eq!(decimal_string(7), "7");
    assert_eq!(decimal_string(10), "10");
    assert_eq!(decimal_string(90817), "90817");
    assert_eq!(decimal_string(usize::MAX), format!("{}", usize::MAX));
}

#[test]
fn every_digit_is_written() {
    assert_eq!(decimal_string(1234567890), "1234567890");
}

#[test]
fn decimal_is_read_back() {
    for n in [0usize, 1, 9, 10, 11, 99, 100, 65535, 65536, usize::MAX - 1, usize::MAX] {
        assert_eq!(parse_index(&decimal_string(n)), Some(n));
    }
}

#[test]
fn indices_are_read_as_the_standard_library_reads_them() {
    let too_large = format!("{}0", usize::MAX);
    let one_more = "18446744073709551616";
    let texts = [
        "", "+", "-", "0", "+0", "-0", "007", "+12", "++1", "1+", " 1", "1 ", "1_000", "12a", "a12",
        "\u{0661}", "18446744073709551615", one_more, "99999999999999999999", &too_large, "$", "5$",
    ];
    for text in texts {
        assert_eq!(parse_index(text), text.parse::<usize>().ok(), "{}", text);
    }
}

#[test]
fn white_space_is_that_of_unicode() {
    for u in 0..=0x10ffffu32 {
        if let Some(c) = char::from_u32(u) {
            assert_eq!(white_space(c), c.is_whitespace(), "{:x}", u);
        }
    }
}

#[test]
fn trim_removes_white_space_at_both_ends() {
    let texts = [
        "", " ", "\n\t \u{a0}", "a", " a", "a ", "  a b  ", "\n     # x\n     # ", "\u{3000}y\u{2028}",
        "\u{200b}z\u{200b}",
    ];
    for text in texts {
        assert_eq!(trim(text), text.trim());
    }
    assert_eq!(trim(" \n a b \t"), "a b");
}

#[test]
fn line_feeds_are_replaced() {
    let texts = ["", "\n", "a", "a\nb", "\na\n\nb\n", "\r\n", "\u{e9}\n\u{1f600}"];
    for text in texts {
        assert_eq!(replace_line_feeds(text, "\n     # "), text.replace("\n", "\n     # "));
        assert_eq!(replace_line_feeds(text, ""), text.replace("\n", ""));
    }
    assert_eq!(replace_line_feeds("x\ny", "<>"), "x<>y");
}

#[test]
fn right_align_pads_with_blanks() {
    assert_eq!(right_align("7", 3), "  7");
    assert_eq!(right_align("123", 3), "123");
    assert_eq!(right_align("1234", 3), "1234");
    assert_eq!(right_align("", 2), "  ");
    assert_eq!(right_align("\u{e9}", 3), format!("{:>3}", "\u{e9}"));
}

#[test]
fn characters_of_a_text() {
    assert_eq!(to_chars("a\u{e9}\u{1f600}"), vec!['a', '\u{e9}', '\u{1f600}']);
}
