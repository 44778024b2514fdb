use engine::text::{decimal_string, push_decimal, split_str};

#[test]
fn decimal_numerals() {
    assert_eq!(decimal_string(0), "0");
    assert_eq!(decimal_string(7), "7");
    assert_eq!(decimal_string(1234), "1234");
    assert_eq!(decimal_string(usize::MAX), usize::MAX.to_string());
}

#[test]
fn push_decimal_appends() {
    let mut s = String::from("TEXCOORD_");
    push_decimal(&mut s, 12);
    assert_eq!(s, "TEXCOORD_12");
}

#[test]
fn split_gives_parts_between_separators() {
    assert_eq!(split_str("a/b//c", '/'), vec!["a", "b", "", "c"]);
    assert_eq!(split_str("", '/'), vec![""]);
    assert_eq!(split_str("/", '/'), vec!["", ""]);
    assert_eq!(split_str("TEXCOORD_0", '_'), vec!["TEXCOORD", "0"]);
    assert_eq!(split_str("héllo wörld", ' '), vec!["héllo", "wörld"]);
}
