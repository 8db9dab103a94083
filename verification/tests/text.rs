use battery_up::text::{
    decimal_string, pad_right, parse_u64, parse_u8, push_repeated, split_at_first, split_lines,
    split_parts, string_of, trimmed, white_space,
};

fn chars(text: &str) -> Vec<char> {
    text.chars().collect()
}

fn strings(parts: Vec<&[char]>) -> Vec<String> {
    parts.into_iter().map(string_of).collect()
}

#[test]
fn numbers_are_written_in_decimal() {
    for n in [0, 1, 9, 10, 99, 100, 1234567890, u64::MAX] {
        assert_eq!(decimal_string(n), n.to_string());
        assert_eq!(parse_u64(&chars(&decimal_string(n))), Some(n));
    }
}

#[test]
fn numbers_are_read_as_the_standard_library_reads_them() {
    for text in [
        "", "0", "00", "007", "+7", "+", "-7", "-0", "++7", " 7", "7 ", "7a", "255", "256", "1e3",
        "0x10", "٣", "18446744073709551615", "18446744073709551616", "99999999999999999999999",
        "+18446744073709551615", "000000000000000000000000000001",
    ] {
        assert_eq!(parse_u64(&chars(text)), text.parse::<u64>().ok(), "{text:?}");
        assert_eq!(parse_u8(&chars(text)), text.parse::<u8>().ok(), "{text:?}");
    }
}

#[test]
fn white_space_is_that_of_unicode() {
    for code in 0..=0x10FFFFu32 {
        if let Some(c) = char::from_u32(code) {
            assert_eq!(white_space(c), c.is_whitespace(), "{code:x}");
        }
    }
}

#[test]
fn text_is_trimmed_on_both_sides() {
    for text in ["", " ", "a", " a", "a\n", "\t a b \u{a0}\u{3000}\n", "\n\n\n", "a\u{200b}"] {
        assert_eq!(string_of(trimmed(&chars(text))), text.trim());
    }
}

#[test]
fn text_is_split_at_the_first_sign() {
    for text in ["", "=", "a", "a=b", "a=b=c", "=b", "a="] {
        let all = chars(text);
        let parts = split_at_first(&all, '=')
            .map(|(before, after)| (string_of(before), string_of(after)));
        let expected = text
            .split_once('=')
            .map(|(before, after)| (before.to_string(), after.to_string()));
        assert_eq!(parts, expected);
    }
}

#[test]
fn text_is_split_at_every_sign() {
    for text in ["", ",", "a", "a,b", "a,,b,", ",a"] {
        let all = chars(text);
        let expected: Vec<String> = text.split(',').map(|part| part.to_string()).collect();
        assert_eq!(strings(split_parts(&all, ',')), expected);
    }
}

#[test]
fn text_is_split_into_lines() {
    for text in [
        "", "\n", "a", "a\n", "a\nb", "a\r\nb\r\n", "a\rb\n", "a\r", "\r", "\r\n", "\n\n", "a\r\r\nb",
    ] {
        let all = chars(text);
        let expected: Vec<String> = text.lines().map(|line| line.to_string()).collect();
        assert_eq!(strings(split_lines(&all)), expected, "{text:?}");
    }
}

#[test]
fn text_is_padded_on_the_right() {
    assert_eq!(pad_right("ab", 4), format!("{:<4}", "ab"));
    assert_eq!(pad_right("é", 3), format!("{:<3}", "é"));
    assert_eq!(pad_right("abcdef", 4), "abcdef");
    let mut out = "x".to_string();
    push_repeated(&mut out, '─', 3);
    push_repeated(&mut out, 'y', 0);
    assert_eq!(out, "x───");
}
