use videoconverter::text::{dec_string, find_last_dot, join_path, padded2_string, replace_all_str};

#[test]
fn decimal_formatting() {
    assert_eq!(dec_string(0), "0");
    assert_eq!(dec_string(7), "7");
    assert_eq!(dec_string(10), "10");
    assert_eq!(dec_string(4294967295), "4294967295");
}

#[test]
fn two_digit_padding() {
    assert_eq!(padded2_string(0), "00");
    assert_eq!(padded2_string(9), "09");
    assert_eq!(padded2_string(10), "10");
    assert_eq!(padded2_string(123), "123");
}

#[test]
fn last_dot_positions() {
    assert_eq!(find_last_dot("video.mp4"), Some(5));
    assert_eq!(find_last_dot("a.b.c"), Some(3));
    assert_eq!(find_last_dot(".bashrc"), Some(0));
    assert_eq!(find_last_dot("noext"), None);
}

#[test]
fn replacement_is_leftmost_and_global() {
    assert_eq!(replace_all_str("video.mp4", "mp4", "mkv"), "video.mkv");
    assert_eq!(replace_all_str("aaa", "aa", "b"), "ba");
    assert_eq!(replace_all_str("abcabc", "abc", "x"), "xx");
    assert_eq!(replace_all_str("none here", "zzz", "x"), "none here");
    assert_eq!(replace_all_str("", "a", "x"), "");
}

#[test]
fn path_joining() {
    assert_eq!(join_path("/a/b", "c"), "/a/b/c");
    assert_eq!(join_path("/a/b/", "c"), "/a/b/c");
    assert_eq!(join_path("", "c"), "c");
}
