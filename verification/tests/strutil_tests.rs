use pingr::strutil::{parse_i16, parse_u64, path_segment, split_char, str_eq, trim, u64_to_string};

#[test]
fn u64_renders_in_decimal() {
    assert_eq!(u64_to_string(0), "0");
    assert_eq!(u64_to_string(7), "7");
    assert_eq!(u64_to_string(60), "60");
    assert_eq!(u64_to_string(12345), "12345");
    assert_eq!(u64_to_string(u64::MAX), "18446744073709551615");
}

#[test]
fn u64_parses_like_std() {
    for s in ["0", "60", "12345", "+5", "18446744073709551615"] {
        assert_eq!(parse_u64(s), s.parse::<u64>().ok(), "input {s:?}");
    }
    for s in ["", "+", "-1", "1.5", "soon", " 6", "6 ", "18446744073709551616"] {
        assert_eq!(parse_u64(s), None, "input {s:?}");
        assert_eq!(s.parse::<u64>().ok(), None, "std on {s:?}");
    }
}

#[test]
fn i16_parses_like_std() {
    for s in ["0", "-70", "+3", "32767", "-32768"] {
        assert_eq!(parse_i16(s), s.parse::<i16>().ok(), "input {s:?}");
    }
    for s in ["", "-", "+", "-70.00", "32768", "-32769", "x"] {
        assert_eq!(parse_i16(s), None, "input {s:?}");
        assert_eq!(s.parse::<i16>().ok(), None, "std on {s:?}");
    }
}

#[test]
fn split_matches_std_split() {
    let parts = split_char("/report/ongoing", '/');
    assert_eq!(parts, vec!["", "report", "ongoing"]);
    assert_eq!(split_char("", '/'), vec![""]);
    assert_eq!(split_char("a//b/", '/'), vec!["a", "", "b", ""]);
    assert_eq!(
        split_char("one two", ' '),
        "one two".split(' ').map(str::to_string).collect::<Vec<_>>()
    );
}

#[test]
fn trim_strips_whitespace_like_std() {
    assert_eq!(trim("  ssid HomeNet \r\n"), "ssid HomeNet");
    assert_eq!(trim(""), "");
    assert_eq!(trim(" \t "), "");
    assert_eq!(trim("x"), "x");
    // The full White_Space set: form feed, em space, no-break space.
    for s in ["\u{0C}x\u{0C}", "\u{2003}x\u{2003}", "\u{A0}x\u{A0}", " x y "] {
        assert_eq!(trim(s), s.trim(), "input {s:?}");
    }
}

#[test]
fn path_segment_indexes_slash_parts() {
    assert_eq!(path_segment("/report/ongoing", 2).as_deref(), Some("ongoing"));
    assert_eq!(path_segment("/report/stop", 2).as_deref(), Some("stop"));
    assert_eq!(path_segment("/report/ongoing", 1).as_deref(), Some("report"));
    assert_eq!(path_segment("/report", 2), None);
}

#[test]
fn str_eq_is_exact() {
    assert!(str_eq("ongoing", "ongoing"));
    assert!(!str_eq("ongoing", "stop"));
    assert!(!str_eq("ongoing", "ongoing "));
    assert!(str_eq("", ""));
}
