use video_range::decimal::{parse_number, push_decimal};
use video_range::header::{parse_range, parse_range_header, RangeForm};

#[test]
fn number_tokens() {
    assert_eq!(parse_number(b"0"), Some(0));
    assert_eq!(parse_number(b"42"), Some(42));
    assert_eq!(parse_number(b"+42"), Some(42));
    assert_eq!(parse_number(b"007"), Some(7));
    assert_eq!(parse_number(b"18446744073709551615"), Some(u64::MAX));
    assert_eq!(parse_number(b"18446744073709551616"), None);
    assert_eq!(parse_number(b"99999999999999999999999999"), None);
    assert_eq!(parse_number(b"000000000000000000000000000000001"), Some(1));
    assert_eq!(parse_number(b""), None);
    assert_eq!(parse_number(b"+"), None);
    assert_eq!(parse_number(b"-"), None);
    assert_eq!(parse_number(b"-1"), None);
    assert_eq!(parse_number(b"++1"), None);
    assert_eq!(parse_number(b" 1"), None);
    assert_eq!(parse_number(b"1 "), None);
    assert_eq!(parse_number(b"1_000"), None);
    assert_eq!(parse_number(b"12a"), None);
    assert_eq!(parse_number(b"0x10"), None);
    assert_eq!(parse_number(b"99999999999999999999999999x"), None);
}

#[test]
fn number_tokens_are_read_as_the_standard_library_reads_them() {
    let alphabet = ['0', '1', '9', '+', '-', ' ', 'a', ','];
    let mut tokens: Vec<String> = vec![String::new()];
    let mut last: Vec<String> = vec![String::new()];
    for _ in 0..4 {
        let mut next = Vec::new();
        for token in &last {
            for c in alphabet {
                let mut longer = token.clone();
                longer.push(c);
                next.push(longer);
            }
        }
        tokens.extend(next.iter().cloned());
        last = next;
    }
    for n in [0u64, 9, 10, 99, 100, 65536, u64::MAX - 1, u64::MAX] {
        tokens.push(n.to_string());
        tokens.push(format!("+{}", n));
        tokens.push(format!("{}0", n));
        tokens.push(format!("0{}", n));
    }
    for token in tokens {
        assert_eq!(
            parse_number(token.as_bytes()),
            token.parse::<u64>().ok(),
            "token {:?}",
            token
        );
    }
}

#[test]
fn decimal_text_of_numbers() {
    for n in [0u64, 1, 9, 10, 11, 99, 100, 101, 999, 1000, 65536, u64::MAX - 1, u64::MAX] {
        let mut text = String::from("x");
        push_decimal(&mut text, n);
        assert_eq!(text, format!("x{}", n));
        assert_eq!(parse_number(text[1..].as_bytes()), Some(n));
    }
}

#[test]
fn header_without_the_unit_asks_for_no_range() {
    assert_eq!(parse_range_header(b""), None);
    assert_eq!(parse_range_header(b"b"), None);
    assert_eq!(parse_range_header(b"bytes"), None);
    assert_eq!(parse_range_header(b"bytes 0-99"), None);
    assert_eq!(parse_range_header(b"Bytes=0-99"), None);
    assert_eq!(parse_range_header(b"BYTES=0-99"), None);
    assert_eq!(parse_range_header(b" bytes=0-99"), None);
    assert_eq!(parse_range_header(b"items=0-99"), None);
    assert_eq!(parse_range_header(b"0-99"), None);
}

#[test]
fn header_that_is_not_text_asks_for_no_range() {
    assert_eq!(parse_range_header(b"bytes=0-99\xff"), None);
    assert_eq!(parse_range_header(b"bytes=0-\x0099"), None);
    assert_eq!(parse_range_header(b"bytes=0-99\n"), None);
    assert_eq!(parse_range_header(b"bytes=0-99\x7f"), None);
    assert_eq!(parse_range_header(b"bytes=\x1f"), None);
    assert_eq!(
        parse_range_header(b"bytes=0-99\t"),
        Some(RangeForm::Span { start: 0, end: None })
    );
    assert_eq!(
        parse_range_header(b"bytes=0-99 "),
        Some(RangeForm::Span { start: 0, end: None })
    );
    assert_eq!(
        parse_range_header(b"bytes=0-99~"),
        Some(RangeForm::Span { start: 0, end: None })
    );
}

#[test]
fn span_forms() {
    assert_eq!(
        parse_range_header(b"bytes=0-99"),
        Some(RangeForm::Span { start: 0, end: Some(99) })
    );
    assert_eq!(
        parse_range_header(b"bytes=950-"),
        Some(RangeForm::Span { start: 950, end: None })
    );
    assert_eq!(
        parse_range_header(b"bytes=+5-+7"),
        Some(RangeForm::Span { start: 5, end: Some(7) })
    );
    assert_eq!(
        parse_range_header(b"bytes=007-0010"),
        Some(RangeForm::Span { start: 7, end: Some(10) })
    );
    assert_eq!(
        parse_range_header(b"bytes=18446744073709551615-18446744073709551615"),
        Some(RangeForm::Span { start: u64::MAX, end: Some(u64::MAX) })
    );
}

#[test]
fn tokens_that_are_no_numbers_fall_back() {
    assert_eq!(
        parse_range_header(b"bytes=abc-99"),
        Some(RangeForm::Span { start: 0, end: Some(99) })
    );
    assert_eq!(
        parse_range_header(b"bytes=5-abc"),
        Some(RangeForm::Span { start: 5, end: None })
    );
    assert_eq!(
        parse_range_header(b"bytes=5-6-7"),
        Some(RangeForm::Span { start: 5, end: None })
    );
    assert_eq!(
        parse_range_header(b"bytes=18446744073709551616-5"),
        Some(RangeForm::Span { start: 0, end: Some(5) })
    );
    assert_eq!(
        parse_range_header(b"bytes=5-18446744073709551616"),
        Some(RangeForm::Span { start: 5, end: None })
    );
    assert_eq!(
        parse_range_header(b"bytes= 5-9"),
        Some(RangeForm::Span { start: 0, end: Some(9) })
    );
}

#[test]
fn range_without_a_dash_has_neither_start_nor_end() {
    assert_eq!(
        parse_range_header(b"bytes="),
        Some(RangeForm::Span { start: 0, end: None })
    );
    assert_eq!(
        parse_range_header(b"bytes=100"),
        Some(RangeForm::Span { start: 0, end: None })
    );
    assert_eq!(
        parse_range_header(b"bytes=abc"),
        Some(RangeForm::Span { start: 0, end: None })
    );
}

#[test]
fn suffix_forms() {
    assert_eq!(
        parse_range_header(b"bytes=-100"),
        Some(RangeForm::Suffix { length: 100 })
    );
    assert_eq!(
        parse_range_header(b"bytes=-0"),
        Some(RangeForm::Suffix { length: 0 })
    );
    assert_eq!(
        parse_range_header(b"bytes=-"),
        Some(RangeForm::Suffix { length: 0 })
    );
    assert_eq!(
        parse_range_header(b"bytes=-abc"),
        Some(RangeForm::Suffix { length: 0 })
    );
    assert_eq!(
        parse_range_header(b"bytes=--5"),
        Some(RangeForm::Suffix { length: 0 })
    );
    assert_eq!(
        parse_range_header(b"bytes=-5-9"),
        Some(RangeForm::Suffix { length: 0 })
    );
    assert_eq!(
        parse_range_header(b"bytes=-+5"),
        Some(RangeForm::Suffix { length: 5 })
    );
    assert_eq!(
        parse_range_header(b"bytes=-18446744073709551615"),
        Some(RangeForm::Suffix { length: u64::MAX })
    );
    assert_eq!(
        parse_range_header(b"bytes=-18446744073709551616"),
        Some(RangeForm::Suffix { length: 0 })
    );
}

#[test]
fn only_the_first_range_of_a_list_counts() {
    assert_eq!(
        parse_range_header(b"bytes=0-99,200-299"),
        Some(RangeForm::Span { start: 0, end: Some(99) })
    );
    assert_eq!(
        parse_range_header(b"bytes=5-,7-9"),
        Some(RangeForm::Span { start: 5, end: None })
    );
    assert_eq!(
        parse_range_header(b"bytes=-5,0-3"),
        Some(RangeForm::Suffix { length: 5 })
    );
    assert_eq!(
        parse_range_header(b"bytes=,0-3"),
        Some(RangeForm::Span { start: 0, end: None })
    );
    assert_eq!(
        parse_range_header(b"bytes=0-99, 200-299"),
        Some(RangeForm::Span { start: 0, end: Some(99) })
    );
    assert_eq!(
        parse_range_header(b"bytes=0-99 ,200-299"),
        Some(RangeForm::Span { start: 0, end: None })
    );
}

#[test]
fn one_range_is_read_without_the_unit() {
    assert_eq!(parse_range(b"3-4"), RangeForm::Span { start: 3, end: Some(4) });
    assert_eq!(parse_range(b"-4"), RangeForm::Suffix { length: 4 });
    assert_eq!(parse_range(b""), RangeForm::Span { start: 0, end: None });
    assert_eq!(parse_range(b"3-4,5-6"), RangeForm::Span { start: 3, end: None });
}
