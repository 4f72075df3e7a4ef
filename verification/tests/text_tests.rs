use nats_agent::number::{format_i32, format_u64, parse_usize};
use nats_agent::text::{last_piece, split, split_whitespace, trim};

#[test]
fn split_keeps_empty_pieces() {
    assert_eq!(split("a,b,,c", ','), vec!["a", "b", "", "c"]);
    assert_eq!(split("", ','), vec![""]);
    assert_eq!(split(",", ','), vec!["", ""]);
    assert_eq!(split("events.>", ','), vec!["events.>"]);
}

#[test]
fn split_join_round_trip() {
    for s in ["a,b,,c", "", ",,", "x", "events.a, events.b"] {
        assert_eq!(split(s, ',').join(","), s);
    }
}

#[test]
fn trim_removes_unicode_whitespace_at_both_ends() {
    assert_eq!(trim("  x y \t"), "x y");
    assert_eq!(trim("\u{3000}\u{a0}abc\u{2028}\n"), "abc");
    assert_eq!(trim("   "), "");
    assert_eq!(trim(""), "");
    let once = trim(" \t a b \r\n");
    assert_eq!(trim(&once), once);
}

#[test]
fn trim_matches_std() {
    for s in ["  a ", "\u{85}b\u{85}", "c\u{200b}", " \u{1680}d e\u{205f}"] {
        assert_eq!(trim(s), s.trim());
    }
}

#[test]
fn split_whitespace_drops_empty_words() {
    assert_eq!(split_whitespace("  ./h.sh  a\tb \n"), vec!["./h.sh", "a", "b"]);
    assert!(split_whitespace(" \t ").is_empty());
    assert!(split_whitespace("").is_empty());
    let s = "python3  handler.py --verbose";
    assert_eq!(split_whitespace(s), s.split_whitespace().collect::<Vec<_>>());
}

#[test]
fn last_piece_is_after_the_last_dot() {
    assert_eq!(last_piece("events.workflow.created", '.'), "created");
    assert_eq!(last_piece("plain", '.'), "plain");
    assert_eq!(last_piece("ends.", '.'), "");
}

#[test]
fn parse_usize_accepts_what_std_accepts() {
    assert_eq!(parse_usize("10"), Some(10));
    assert_eq!(parse_usize("+7"), Some(7));
    assert_eq!(parse_usize("007"), Some(7));
    assert_eq!(parse_usize("0"), Some(0));
    assert_eq!(parse_usize("+"), None);
    assert_eq!(parse_usize(""), None);
    assert_eq!(parse_usize("-1"), None);
    assert_eq!(parse_usize(" 5"), None);
    assert_eq!(parse_usize("12a"), None);
    assert_eq!(parse_usize("++1"), None);
    let max = usize::MAX.to_string();
    assert_eq!(parse_usize(&max), Some(usize::MAX));
    let over = format!("{}0", usize::MAX);
    assert_eq!(parse_usize(&over), None);
    for s in ["10", "+7", "+", "", "-1", " 5", "99999999999999999999999", "1_000"] {
        assert_eq!(parse_usize(s), s.parse::<usize>().ok());
    }
}

#[test]
fn format_matches_display() {
    assert_eq!(format_i32(-1), "-1");
    assert_eq!(format_i32(0), "0");
    assert_eq!(format_i32(i32::MIN), i32::MIN.to_string());
    assert_eq!(format_i32(i32::MAX), i32::MAX.to_string());
    assert_eq!(format_u64(u64::MAX), u64::MAX.to_string());
    assert_eq!(format_u64(1234), "1234");
}

#[test]
fn decimal_round_trip() {
    for n in [0u64, 9, 10, 1234, 4_294_967_295, u64::MAX] {
        assert_eq!(parse_usize(&format_u64(n)), Some(n as usize));
    }
}
