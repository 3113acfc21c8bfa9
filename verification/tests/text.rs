use engine_session::text::{
    char_is_space, chars_of, contains_chars, digit_str, find_word, line_contains,
    parse_magnitude, parse_small_int, push_decimal, range_equals, skip_spaces_from,
    skip_word_from,
};

fn chars(s: &str) -> Vec<char> {
    s.chars().collect()
}

fn word(s: &str, n: usize) -> Option<String> {
    let cs = chars(s);
    find_word(&cs, n).map(|(a, b)| cs[a..b].iter().collect())
}

fn small(s: &str) -> Option<i8> {
    let cs = chars(s);
    parse_small_int(&cs, 0, cs.len())
}

fn written(n: u128) -> String {
    let mut out = String::new();
    push_decimal(&mut out, n);
    out
}

#[test]
fn space_is_what_std_calls_whitespace() {
    for n in 0..=0x10FFFFu32 {
        if let Some(c) = char::from_u32(n) {
            assert_eq!(char_is_space(c), c.is_whitespace(), "U+{:04X}", n);
        }
    }
}

#[test]
fn chars_of_gives_every_character_in_order() {
    assert_eq!(chars_of(""), Vec::<char>::new());
    assert_eq!(chars_of("go"), vec!['g', 'o']);
    assert_eq!(chars_of("é2\n"), vec!['é', '2', '\n']);
}

#[test]
fn range_equals_compares_the_range_only() {
    let hay = chars("bestmove e2e4");
    assert!(range_equals(&hay, 0, 8, &chars("bestmove")));
    assert!(range_equals(&hay, 9, 13, &chars("e2e4")));
    assert!(!range_equals(&hay, 9, 13, &chars("e2e5")));
    assert!(!range_equals(&hay, 9, 13, &chars("e2e")));
    assert!(!range_equals(&hay, 9, 12, &chars("e2e4")));
    assert!(range_equals(&hay, 4, 4, &chars("")));
}

#[test]
fn contains_finds_the_marker_anywhere() {
    assert!(line_contains("uciok\n", "uciok"));
    assert!(line_contains("id name x uciok", "uciok"));
    assert!(line_contains("xxuciokxx", "uciok"));
    assert!(!line_contains("uci ok", "uciok"));
    assert!(!line_contains("ucio", "uciok"));
    assert!(!line_contains("", "uciok"));
    assert!(line_contains("", ""));
    assert!(line_contains("abc", ""));
    assert!(line_contains("aab", "ab"));
    assert!(contains_chars(&chars("aaab"), &chars("aab")));
    assert!(!contains_chars(&chars("abab"), &chars("bb")));
}

#[test]
fn contains_agrees_with_std() {
    let hays = ["", "a", "readyok", "info string readyok now", "bestmov", "bestbestmove"];
    let needles = ["", "a", "readyok", "bestmove", "ok", "best"];
    for hay in hays {
        for needle in needles {
            assert_eq!(line_contains(hay, needle), hay.contains(needle), "{hay:?} {needle:?}");
        }
    }
}

#[test]
fn skipping_stops_where_it_should() {
    let cs = chars("  ab \t cd");
    assert_eq!(skip_spaces_from(&cs, 0), 2);
    assert_eq!(skip_spaces_from(&cs, 2), 2);
    assert_eq!(skip_word_from(&cs, 2), 4);
    assert_eq!(skip_spaces_from(&cs, 4), 7);
    assert_eq!(skip_word_from(&cs, 7), 9);
    assert_eq!(skip_spaces_from(&cs, 9), 9);
    assert_eq!(skip_word_from(&cs, 9), 9);
}

#[test]
fn words_are_runs_between_spaces() {
    assert_eq!(word("bestmove e2e4 ponder e7e5", 0).as_deref(), Some("bestmove"));
    assert_eq!(word("bestmove e2e4 ponder e7e5", 1).as_deref(), Some("e2e4"));
    assert_eq!(word("bestmove e2e4 ponder e7e5", 3).as_deref(), Some("e7e5"));
    assert_eq!(word("bestmove e2e4 ponder e7e5", 4), None);
    assert_eq!(word("  \t bestmove \r\n", 0).as_deref(), Some("bestmove"));
    assert_eq!(word("  \t bestmove \r\n", 1), None);
    assert_eq!(word("", 0), None);
    assert_eq!(word("   ", 0), None);
    assert_eq!(word("a\u{3000}b", 1).as_deref(), Some("b"));
}

#[test]
fn words_agree_with_split_whitespace() {
    let lines = [
        "",
        " ",
        "info score mate 0",
        "info  score\tcp   20 \n",
        "\n\nbestmove\u{a0}e7e8q\u{2003}ponder",
        "x",
        " x",
        "x ",
    ];
    for line in lines {
        for n in 0..6 {
            assert_eq!(
                word(line, n),
                line.split_whitespace().nth(n).map(|w| w.to_string()),
                "{line:?} {n}"
            );
        }
    }
}

#[test]
fn digit_str_writes_one_digit() {
    let digits = ["0", "1", "2", "3", "4", "5", "6", "7", "8", "9"];
    for d in 0..10u8 {
        assert_eq!(digit_str(d), digits[d as usize]);
    }
}

#[test]
fn push_decimal_writes_numbers_as_std_does() {
    assert_eq!(written(0), "0");
    assert_eq!(written(7), "7");
    assert_eq!(written(10), "10");
    assert_eq!(written(300000), "300000");
    assert_eq!(written(u128::MAX), "340282366920938463463374607431768211455");
    for n in [9u128, 99, 100, 101, 1234567890, u64::MAX as u128] {
        assert_eq!(written(n), n.to_string());
    }
}

#[test]
fn push_decimal_appends_to_what_is_there() {
    let mut out = String::from("depth ");
    push_decimal(&mut out, 12);
    assert_eq!(out, "depth 12");
}

#[test]
fn magnitude_is_held_at_its_limit() {
    let cs = chars("999 1000 123456789012345678901234567890 12x");
    assert_eq!(parse_magnitude(&cs, 0, 3), Some(999));
    assert_eq!(parse_magnitude(&cs, 4, 8), Some(1000));
    assert_eq!(parse_magnitude(&cs, 9, 39), Some(1000));
    assert_eq!(parse_magnitude(&cs, 40, 43), None);
    assert_eq!(parse_magnitude(&cs, 3, 3), None);
}

#[test]
fn small_integers_are_read_with_their_sign() {
    assert_eq!(small("0"), Some(0));
    assert_eq!(small("-0"), Some(0));
    assert_eq!(small("+0"), Some(0));
    assert_eq!(small("000"), Some(0));
    assert_eq!(small("5"), Some(5));
    assert_eq!(small("-3"), Some(-3));
    assert_eq!(small("+12"), Some(12));
    assert_eq!(small("127"), Some(127));
    assert_eq!(small("128"), None);
    assert_eq!(small("-128"), Some(-128));
    assert_eq!(small("-129"), None);
    assert_eq!(small("0000127"), Some(127));
    assert_eq!(small(""), None);
    assert_eq!(small("+"), None);
    assert_eq!(small("-"), None);
    assert_eq!(small("--1"), None);
    assert_eq!(small("1-"), None);
    assert_eq!(small("12a"), None);
    assert_eq!(small("Helaas"), None);
    assert_eq!(small("99999999999999999999999999"), None);
}

#[test]
fn small_integers_agree_with_std() {
    let texts = [
        "0", "-0", "+0", "1", "-1", "127", "128", "-128", "-129", "255", "256", "1000", "-1000",
        "", "+", "-", "+-1", " 1", "1 ", "0x10", "٣", "00", "-00012", "+00128",
    ];
    for text in texts {
        assert_eq!(small(text), text.parse::<i8>().ok(), "{text:?}");
    }
    for n in -300i32..=300 {
        let text = n.to_string();
        assert_eq!(small(&text), text.parse::<i8>().ok(), "{text:?}");
    }
}
