use terser_options::text::{chars_of, parse_decimal, trim_bounds, white_space};

#[test]
fn white_space_agrees_with_std_on_every_char() {
    let mut code: u32 = 0;
    while code <= 0x10FFFF {
        if let Some(c) = char::from_u32(code) {
            assert_eq!(white_space(c), c.is_whitespace(), "U+{:04X}", code);
        }
        code += 1;
    }
}

#[test]
fn white_space_knows_the_separators_beyond_ascii() {
    assert!(white_space(' '));
    assert!(white_space('\t'));
    assert!(white_space('\n'));
    assert!(white_space('\u{0085}'));
    assert!(white_space('\u{00A0}'));
    assert!(white_space('\u{3000}'));
    assert!(!white_space('a'));
    assert!(!white_space('\u{200B}'));
    assert!(!white_space(','));
}

#[test]
fn chars_of_gives_each_character_once() {
    assert_eq!(chars_of(""), Vec::<char>::new());
    assert_eq!(chars_of("a,b"), vec!['a', ',', 'b']);
    assert_eq!(chars_of("é\u{3000}z"), vec!['é', '\u{3000}', 'z']);
}

fn trim_by_bounds(s: &str) -> String {
    let v = chars_of(s);
    let (a, b) = trim_bounds(&v, 0, v.len());
    v[a..b].iter().collect()
}

#[test]
fn trim_bounds_agrees_with_std_trim() {
    for s in [
        "",
        " ",
        "   ",
        "a",
        " a",
        "a ",
        "  a b  ",
        "\t\nab\r\n",
        "\u{3000}x\u{00A0}",
        " , ",
        "é ",
        "a\u{200B} ",
    ] {
        assert_eq!(trim_by_bounds(s), s.trim(), "{:?}", s);
    }
}

#[test]
fn trim_bounds_stays_inside_the_range() {
    let v = chars_of("x  ab  y");
    assert_eq!(trim_bounds(&v, 1, 7), (3, 5));
    assert_eq!(trim_bounds(&v, 1, 3), (3, 3));
    assert_eq!(trim_bounds(&v, 0, 8), (0, 8));
    assert_eq!(trim_bounds(&v, 4, 4), (4, 4));
}

#[test]
fn parse_decimal_reads_numbers() {
    assert_eq!(parse_decimal("0"), Some(0));
    assert_eq!(parse_decimal("5"), Some(5));
    assert_eq!(parse_decimal("2015"), Some(2015));
    assert_eq!(parse_decimal("+7"), Some(7));
    assert_eq!(parse_decimal("007"), Some(7));
    assert_eq!(parse_decimal("1234567890"), Some(1234567890));
}

#[test]
fn parse_decimal_turns_down_what_is_no_number() {
    for s in [
        "", "+", "-", "-5", " 5", "5 ", "5.0", "1e3", "0x10", "five", "++5", "5+", "٥", "1_000",
    ] {
        assert_eq!(parse_decimal(s), None, "{:?}", s);
    }
}

#[test]
fn parse_decimal_agrees_with_std_parse() {
    let max = usize::MAX.to_string();
    let mut over = max.clone();
    over.push('0');
    let mut next = String::from("1");
    for _ in 0..max.len() {
        next.push('0');
    }
    let samples = [
        "", "0", "00", "9", "10", "+0", "+10", "-0", "-1", "+", "a", "1a", "a1", " 1", "1 ", "२",
        "18446744073709551615", "18446744073709551616", "4294967295", "4294967296",
        "99999999999999999999999999", "000000000000000000000000000001",
        max.as_str(), over.as_str(), next.as_str(),
    ];
    for s in samples {
        assert_eq!(parse_decimal(s), s.parse::<usize>().ok(), "{:?}", s);
    }
}
