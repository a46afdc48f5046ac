use apf_engine::text::{is_whitespace, split_str, str_eq, trim_str, push_decimal, chars_of};

#[test]
fn whitespace_matches_std() {
    for n in 0u32..0x3100 {
        if let Some(c) = char::from_u32(n) {
            assert_eq!(is_whitespace(c), c.is_whitespace(), "char {:x}", n);
        }
    }
    for n in [0x10000u32, 0x1F600, 0xFEFF, 0x180E] {
        let c = char::from_u32(n).unwrap();
        assert_eq!(is_whitespace(c), c.is_whitespace());
    }
}

#[test]
fn trim_matches_std() {
    let cases = ["", "   ", " a ", "\t\nab c\u{3000}", "x", "  héllo wörld \u{85}", "\u{2028}y\u{2029}"];
    for s in cases.iter() {
        assert_eq!(trim_str(s), s.trim());
    }
}

#[test]
fn trim_twice_is_trim_once() {
    let s = "  \t padded value \n ";
    let once = trim_str(s);
    let twice = trim_str(&once);
    assert_eq!(once, twice);
    assert_eq!(once, "padded value");
}

#[test]
fn split_matches_std() {
    let cases = ["", ",", "a", "a,b", ",a,,b,", "g1, g2,g3"];
    for s in cases.iter() {
        let expected: Vec<String> = s.split(',').map(|p| p.to_owned()).collect();
        assert_eq!(split_str(s, ','), expected);
    }
}

#[test]
fn decimal_rendering() {
    for n in [0u64, 7, 10, 99, 1001, 65535, u64::MAX] {
        let mut s = String::from("n=");
        push_decimal(&mut s, n);
        assert_eq!(s, format!("n={}", n));
    }
}

#[test]
fn string_comparison_and_chars() {
    assert!(str_eq("abc", "abc"));
    assert!(!str_eq("abc", "abd"));
    assert!(!str_eq("abc", "ab"));
    assert!(str_eq("", ""));
    assert_eq!(chars_of("héllo"), vec!['h', 'é', 'l', 'l', 'o']);
}

#[test]
fn split_then_join_gives_the_text_back() {
    for s in ["a,b,,c", "", ",", "no separators"] {
        let pieces = split_str(s, ',');
        assert!(pieces.iter().all(|p| !p.contains(',')));
        assert_eq!(pieces.join(","), s);
    }
}
