use hupdater::render::{debug_exit_code, i32_to_string, to_wide_null, u32_to_string};
use hupdater::text::{chars_of, lines_chars, split_chars, split_whitespace_chars, string_of, CharClass};

fn strs(v: Vec<Vec<char>>) -> Vec<String> {
    v.iter().map(|c| c.iter().collect()).collect()
}

#[test]
fn lines_like_std() {
    for s in ["", "a", "a\n", "a\r\nb", "a\n\nb\n", "\n", "x\r", "x\r\n\r\n"] {
        let expected: Vec<String> = s.lines().map(|l| l.to_string()).collect();
        assert_eq!(strs(lines_chars(&chars_of(s))), expected, "input {:?}", s);
    }
}

#[test]
fn split_like_std() {
    for s in ["", ".", "1.2.3", "..a.", "abc"] {
        let expected: Vec<String> = s.split('.').map(|l| l.to_string()).collect();
        assert_eq!(strs(split_chars(&chars_of(s), CharClass::Exactly('.'))), expected);
    }
    for s in ["", "  a  b\tc\u{a0}d ", "one"] {
        let expected: Vec<String> = s.split_whitespace().map(|l| l.to_string()).collect();
        assert_eq!(strs(split_whitespace_chars(&chars_of(s))), expected);
    }
}

#[test]
fn string_round_trip() {
    let s = "Ünïcødé ✓ 𝄞";
    assert_eq!(string_of(&chars_of(s)), s);
}

#[test]
fn numbers_render_like_std() {
    for n in [0u32, 7, 10, 12345, u32::MAX] {
        assert_eq!(u32_to_string(n), n.to_string());
    }
    for n in [0i32, -1, 42, i32::MIN, i32::MAX] {
        assert_eq!(i32_to_string(n), n.to_string());
    }
    assert_eq!(debug_exit_code(Some(3)), format!("{:?}", Some(3)));
    assert_eq!(debug_exit_code(Some(-5)), "Some(-5)");
    assert_eq!(debug_exit_code(None), "None");
}

#[test]
fn wide_strings_are_utf16_with_terminator() {
    for s in ["", "HUpdater", "é𝄞x"] {
        let expected: Vec<u16> = s.encode_utf16().chain(std::iter::once(0)).collect();
        assert_eq!(to_wide_null(s), expected);
    }
}
