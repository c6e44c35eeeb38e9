use kaguya::clock::{epoch_seconds, signed_seconds};
use kaguya::encoding::id_from;
use kaguya::text::{
    chars_of, comes_before, joined, push_decimal, push_hex, push_signed_decimal, same_text,
    strip_prefix, trim_range, trim_trailing,
};

const TEXTS: [&str; 8] = ["", "a", "ab", "b", "é", "éa", "\u{10000}", "\u{ffff}"];

#[test]
fn texts_are_told_apart_and_ordered_by_their_bytes() {
    for a in TEXTS {
        for b in TEXTS {
            assert_eq!(same_text(a, b), a == b);
            assert_eq!(comes_before(a, b), a < b);
        }
    }
}

#[test]
fn numbers_are_written_out() {
    for n in [0, 7, 10, 99, 100, 1234567890, u64::MAX] {
        let mut s = "n=".to_string();
        push_decimal(&mut s, n);
        assert_eq!(s, format!("n={n}"));
    }
    for n in [0, -1, 1, -10, i64::MIN, i64::MAX] {
        let mut s = String::new();
        push_signed_decimal(&mut s, n);
        assert_eq!(s, n.to_string());
    }
    for n in [0, 0xab, u128::MAX] {
        let mut s = String::new();
        push_hex(&mut s, n, 32);
        assert_eq!(s, format!("{n:032x}"));
        assert_eq!(id_from(n), s);
    }
    let mut s = String::new();
    push_hex(&mut s, 0x1234, 2);
    assert_eq!(s, "34");
}

#[test]
fn prefixes_and_ends_are_cut_off() {
    assert_eq!(strip_prefix("abc", "ab").as_deref(), Some("c"));
    assert_eq!(strip_prefix("éa", "é").as_deref(), Some("a"));
    assert_eq!(strip_prefix("ab", "").as_deref(), Some("ab"));
    assert_eq!(strip_prefix("ab", "abc"), None);
    assert_eq!(strip_prefix("ab", "b"), None);
    assert_eq!(trim_trailing("a//", '/'), "a");
    assert_eq!(trim_trailing("//", '/'), "");
    assert_eq!(trim_trailing("/a", '/'), "/a");
    assert_eq!(trim_trailing("aéé", 'é'), "a");
    assert_eq!(joined("a", "b"), "ab");
}

#[test]
fn white_space_is_trimmed() {
    let a = chars_of(" \t a b \u{a0}");
    assert_eq!(trim_range(&a, 0, a.len()), (3, 6));
    assert_eq!(trim_range(&a, 0, 2), (2, 2));
    assert_eq!(trim_range(&a, 3, 3), (3, 3));
}

#[test]
fn seconds_of_the_clock() {
    let d = std::time::Duration::from_millis(2999);
    assert_eq!(epoch_seconds(Ok(d)), 2);
    let later = std::time::UNIX_EPOCH + d;
    assert_eq!(epoch_seconds(std::time::UNIX_EPOCH.duration_since(later)), 0);
    assert_eq!(signed_seconds(5), 5);
    assert_eq!(signed_seconds(u64::MAX), -1);
}
