use weathr::text::{char_digit, chars_of, digit_str, parse_u8_in, push_padded};

fn padded(n: u32, width: u32) -> String {
    let mut out = String::new();
    push_padded(&mut out, n, width);
    out
}

#[test]
fn padded_number_matches_the_standard_formatter() {
    for n in [0u32, 1, 9, 10, 23, 59, 99, 100, 236, 999, 1000, 9999, 10000, 65535, u32::MAX] {
        assert_eq!(padded(n, 0), format!("{}", n));
        assert_eq!(padded(n, 1), format!("{}", n));
        assert_eq!(padded(n, 2), format!("{:02}", n));
        assert_eq!(padded(n, 3), format!("{:03}", n));
        assert_eq!(padded(n, 4), format!("{:04}", n));
        assert_eq!(padded(n, 12), format!("{:012}", n));
    }
}

#[test]
fn padded_number_goes_after_what_is_there() {
    let mut out = String::from("Sat-");
    push_padded(&mut out, 7, 2);
    assert_eq!(out, "Sat-07");
}

#[test]
fn digits_have_their_values() {
    for d in 0..10u8 {
        let text = digit_str(d);
        assert_eq!(text, format!("{}", d));
        assert_eq!(char_digit(text.chars().next().unwrap()), Some(d));
    }
    assert_eq!(char_digit('a'), None);
    assert_eq!(char_digit('-'), None);
    assert_eq!(char_digit('+'), None);
    assert_eq!(char_digit('٣'), None);
}

#[test]
fn chars_of_keeps_every_character() {
    assert_eq!(chars_of("06-18"), vec!['0', '6', '-', '1', '8']);
    assert_eq!(chars_of(""), Vec::<char>::new());
    assert_eq!(chars_of("é٣x"), vec!['é', '٣', 'x']);
}

#[test]
fn parse_u8_in_reads_a_range() {
    let chars = chars_of("x+12-255y");
    assert_eq!(parse_u8_in(&chars, 1, 4), Some(12));
    assert_eq!(parse_u8_in(&chars, 2, 4), Some(12));
    assert_eq!(parse_u8_in(&chars, 5, 8), Some(255));
    assert_eq!(parse_u8_in(&chars, 5, 9), None);
    assert_eq!(parse_u8_in(&chars, 0, 4), None);
    assert_eq!(parse_u8_in(&chars, 1, 2), None);
    assert_eq!(parse_u8_in(&chars, 3, 3), None);
    assert_eq!(parse_u8_in(&chars, 1, 8), None);
}

#[test]
fn parse_u8_in_agrees_with_the_standard_parser() {
    let texts = [
        "",
        "+",
        "0",
        "00",
        "9",
        "+9",
        "10",
        "99",
        "100",
        "255",
        "256",
        "260",
        "999",
        "0255",
        "00000000000000000255",
        "99999999999999999999",
        "1a",
        "a1",
        "1 ",
        "-1",
        "+-1",
        "1+",
    ];
    for text in texts {
        let chars = chars_of(text);
        assert_eq!(parse_u8_in(&chars, 0, chars.len()), text.parse::<u8>().ok(), "{:?}", text);
    }
}
