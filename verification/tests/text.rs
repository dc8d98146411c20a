use nqrust_hvcollector::text::{contains_str, decimal_string, is_blank_str, is_whitespace_char, parse_unsigned, repeat_star, trim};

const SAMPLES: [&str; 22] = [
    "", " ", "0", "5432", "+80", "+", "-", "-0", "65535", "65536", "0065535", " 80", "80 ",
    "1_000", "4294967295", "4294967296", "18446744073709551615", "18446744073709551616", "٣",
    "12a", "++1", "+0",
];

#[test]
fn parse_agrees_with_std_u16() {
    for s in SAMPLES {
        assert_eq!(parse_unsigned(s, 65535), s.parse::<u16>().ok().map(u64::from), "{:?}", s);
    }
}

#[test]
fn parse_agrees_with_std_u32() {
    for s in SAMPLES {
        assert_eq!(parse_unsigned(s, 4294967295), s.parse::<u32>().ok().map(u64::from), "{:?}", s);
    }
}

#[test]
fn parse_agrees_with_std_u64() {
    for s in SAMPLES {
        assert_eq!(parse_unsigned(s, u64::MAX), s.parse::<u64>().ok(), "{:?}", s);
    }
}

#[test]
fn whitespace_matches_std() {
    for v in 0u32..0x3100 {
        if let Some(c) = char::from_u32(v) {
            assert_eq!(is_whitespace_char(c), c.is_whitespace(), "{:#x}", v);
        }
    }
    assert!(!is_whitespace_char('\u{200B}'));
    assert!(is_whitespace_char('\u{3000}'));
}

#[test]
fn blank_and_trim_match_std() {
    for s in ["", "  ", "\u{85}\u{a0}", " a ", "\ta b\n", "x", "\u{3000}é\u{2028}", "é"] {
        assert_eq!(is_blank_str(s), s.trim().is_empty(), "{:?}", s);
        assert_eq!(trim(s), s.trim(), "{:?}", s);
    }
}

#[test]
fn contains_matches_std() {
    let hay = ["", "target", "/home/u/target/release", "tar get", "success!", "ééerror"];
    let pats = ["", "target", "error", "success", "é"];
    for h in hay {
        for p in pats {
            assert_eq!(contains_str(h, p), h.contains(p), "{:?} {:?}", h, p);
        }
    }
}

#[test]
fn decimal_matches_display() {
    for n in [0usize, 1, 7, 9, 10, 42, 100, 65535, usize::MAX] {
        assert_eq!(decimal_string(n), n.to_string());
    }
}

#[test]
fn stars() {
    assert_eq!(repeat_star(0), "");
    assert_eq!(repeat_star(4), "****");
}
