use orbolay::util::chars::{chars_of, str_eq, string_of, to_ascii_lowercase, trim_chars};
use orbolay::util::colors::{
    color_to_hex, from_tuple, parse_hex_color, to_tuple, with_alpha, GRAY, TRANSPARENT,
};
use orbolay::util::number::{
    i32_to_decimal, parse_i32, parse_u16, u16_to_decimal, u64_to_decimal,
};
use orbolay::util::process::{is_already_running, text_contains};
use orbolay::util::string_map::StringMap;
use orbolay::util::text::{censor, replace};
use orbolay::util::{strip, truncate};

#[test]
fn truncate_shortens_long_text() {
    assert_eq!(truncate("hello world", 5), "hello...");
}

#[test]
fn truncate_keeps_short_text() {
    assert_eq!(truncate("hi", 5), "hi");
    assert_eq!(truncate("hello", 5), "hello");
}

#[test]
fn truncate_counts_bytes() {
    // "é" takes two bytes.
    assert_eq!(truncate("héllo", 3), "hé...");
}

#[test]
fn strip_replaces_line_feeds() {
    assert_eq!(strip("line one\nline two\n"), "line one line two ");
    assert_eq!(strip("plain"), "plain");
}

#[test]
fn censor_keeps_first_character() {
    assert_eq!(censor("Alice"), "A...");
    assert_eq!(censor("Émile"), "É...");
    assert_eq!(censor(""), "?...");
}

#[test]
fn replace_scans_from_the_left() {
    assert_eq!(replace("a.webp.webp", ".webp", ".png"), "a.png.png");
    assert_eq!(replace("aaa", "aa", "b"), "ba");
    assert_eq!(replace("none here", "x", "y"), "none here");
    assert_eq!(replace("abc", "", "x"), "abc".replace("", "x"));
    assert_eq!(replace("", "", "x"), "x");
}

#[test]
fn parse_i32_follows_std() {
    assert_eq!(parse_i32("42"), Some(42));
    assert_eq!(parse_i32("+5"), Some(5));
    assert_eq!(parse_i32("-2147483648"), Some(i32::MIN));
    assert_eq!(parse_i32("2147483647"), Some(i32::MAX));
    assert_eq!(parse_i32("2147483648"), None);
    assert_eq!(parse_i32("-2147483649"), None);
    assert_eq!(parse_i32(""), None);
    assert_eq!(parse_i32("-"), None);
    assert_eq!(parse_i32(" 1"), None);
    assert_eq!(parse_i32("1x"), None);
    for text in ["0", "-0", "007", "+12", "-99", "123456"] {
        assert_eq!(parse_i32(text), text.parse::<i32>().ok());
    }
}

#[test]
fn parse_u16_follows_std() {
    assert_eq!(parse_u16("6888"), Some(6888));
    assert_eq!(parse_u16("65535"), Some(65535));
    assert_eq!(parse_u16("65536"), None);
    assert_eq!(parse_u16("+1"), Some(1));
    assert_eq!(parse_u16("-1"), None);
    assert_eq!(parse_u16("+"), None);
    for text in ["0", "00", "080", "+65535", "7000a"] {
        assert_eq!(parse_u16(text), text.parse::<u16>().ok());
    }
}

#[test]
fn decimal_texts() {
    assert_eq!(i32_to_decimal(-42), "-42");
    assert_eq!(i32_to_decimal(0), "0");
    assert_eq!(i32_to_decimal(i32::MIN), i32::MIN.to_string());
    assert_eq!(u16_to_decimal(6888), "6888");
    assert_eq!(u64_to_decimal(u64::MAX), u64::MAX.to_string());
}

#[test]
fn decimal_text_reads_back() {
    for n in [i32::MIN, -1, 0, 7, 1234, i32::MAX] {
        assert_eq!(parse_i32(&i32_to_decimal(n)), Some(n));
    }
    for n in [0u16, 9, 10, 6888, u16::MAX] {
        assert_eq!(parse_u16(&u16_to_decimal(n)), Some(n));
    }
}

#[test]
fn chars_helpers() {
    assert_eq!(chars_of("abc"), vec!['a', 'b', 'c']);
    assert_eq!(string_of(&vec!['x', 'y']), "xy");
    assert_eq!(trim_chars(&chars_of("\t a b \n")), vec!['a', ' ', 'b']);
    assert_eq!(to_ascii_lowercase("OrBoLay-É"), chars_of("orbolay-É"));
    assert!(str_eq("same", "same"));
    assert!(!str_eq("same", "Same"));
}

#[test]
fn color_tuples() {
    assert_eq!(from_tuple((1, 2, 3)), 0xFF010203);
    assert_eq!(to_tuple(0xFF010203), (1, 2, 3));
    assert_eq!(to_tuple(GRAY), (30, 31, 35));
    assert_eq!(to_tuple(from_tuple((200, 100, 50))), (200, 100, 50));
    assert_eq!(with_alpha(0xFF010203, 0x80), 0x80010203);
    assert_eq!(with_alpha(TRANSPARENT, 0xFF), 0xFF000000);
}

#[test]
fn hex_colors() {
    assert_eq!(parse_hex_color("#1E1F23"), Some((30, 31, 35)));
    assert_eq!(parse_hex_color(" ##ff0000 "), Some((255, 0, 0)));
    assert_eq!(parse_hex_color("00ff00"), Some((0, 255, 0)));
    assert_eq!(parse_hex_color("+F+F+F"), Some((15, 15, 15)));
    assert_eq!(parse_hex_color("#12345"), None);
    assert_eq!(parse_hex_color("#GG0000"), None);
    assert_eq!(parse_hex_color(""), None);
    assert_eq!(color_to_hex((30, 31, 35)), "#1E1F23");
    assert_eq!(color_to_hex((255, 0, 10)), "#FF000A");
}

#[test]
fn hex_color_reads_back() {
    for rgb in [(0, 0, 0), (255, 255, 255), (30, 31, 35), (1, 128, 254)] {
        assert_eq!(parse_hex_color(&color_to_hex(rgb)), Some(rgb));
    }
}

#[test]
fn string_map_reads_what_was_written() {
    let mut m: StringMap<u32> = StringMap::new();
    assert_eq!(m.len(), 0);
    m.insert("a".to_string(), 1);
    m.insert("b".to_string(), 2);
    m.insert("a".to_string(), 3);
    assert_eq!(m.len(), 2);
    assert_eq!(m.get("a"), Some(&3));
    assert_eq!(m.get("b"), Some(&2));
    assert_eq!(m.get("c"), None);
    assert!(m.contains_key("b"));
    assert!(!m.contains_key("c"));
    let (k, v) = m.entry(1);
    assert_eq!((k.as_str(), *v), ("b", 2));
}

#[test]
fn text_search() {
    assert!(text_contains(&chars_of("my-orbolay.exe"), &chars_of("orbolay")));
    assert!(!text_contains(&chars_of("orbola"), &chars_of("orbolay")));
    assert!(text_contains(&chars_of("x"), &chars_of("")));
}

#[test]
fn other_instance_detection() {
    let procs = vec![
        ("Orbolay.exe".to_string(), 10u32),
        ("bash".to_string(), 11u32),
    ];
    assert!(!is_already_running(&procs, 10));
    assert!(is_already_running(&procs, 11));
    let procs = vec![("ORBOLAY".to_string(), 3u32), ("orbolay".to_string(), 4u32)];
    assert!(is_already_running(&procs, 3));
    assert!(!is_already_running(&Vec::new(), 1));
}
