use paperwall::text::{
    after_last_char_of, before_char_of, before_seq_of, chars_of, copy_range, ends_with_chars,
    find_char, find_seq, matches_at, push_decimal, push_padded, rfind_char, same_text,
};

fn v(s: &str) -> Vec<char> {
    s.chars().collect()
}

#[test]
fn chars_of_keeps_every_character() {
    assert_eq!(chars_of("héllo"), vec!['h', 'é', 'l', 'l', 'o']);
    assert_eq!(chars_of(""), Vec::<char>::new());
}

#[test]
fn same_text_compares_characters() {
    assert!(same_text("pixel", "pixel"));
    assert!(!same_text("pixel", "Pixel"));
    assert!(!same_text("pix", "pixel"));
}

#[test]
fn decimal_digits() {
    let mut out = Vec::new();
    push_decimal(&mut out, 0);
    push_decimal(&mut out, 404);
    assert_eq!(out, v("0404"));
}

#[test]
fn padded_digits() {
    let mut out = Vec::new();
    push_padded(&mut out, 7, 2);
    push_padded(&mut out, 123, 2);
    push_padded(&mut out, 42, 4);
    assert_eq!(out, v("071230042"));
}

#[test]
fn character_searches() {
    let s = v("a/b/c?d");
    assert_eq!(find_char(&s, '/'), Some(1));
    assert_eq!(rfind_char(&s, '/'), Some(3));
    assert_eq!(find_char(&s, 'z'), None);
    assert_eq!(rfind_char(&s, 'z'), None);
    assert_eq!(before_char_of(&s, '?'), v("a/b/c"));
    assert_eq!(before_char_of(&s, 'z'), s);
    assert_eq!(after_last_char_of(&s, '/'), v("c?d"));
    assert_eq!(after_last_char_of(&s, 'z'), s);
}

#[test]
fn pattern_searches() {
    let s = v("xxid=1id=2");
    let p = v("id=");
    assert!(matches_at(&s, &p, 2));
    assert!(!matches_at(&s, &p, 3));
    assert!(!matches_at(&s, &p, 9));
    assert_eq!(find_seq(&s, &p), Some(2));
    assert_eq!(find_seq(&s, &v("zz")), None);
    assert_eq!(before_seq_of(&s, &p), v("xx"));
    assert_eq!(before_seq_of(&s, &v("q")), s);
    assert!(ends_with_chars(&s, &v("=2")));
    assert!(!ends_with_chars(&s, &v("=1")));
    assert!(!ends_with_chars(&v("a"), &v("ab")));
    assert_eq!(copy_range(&s, 2, 5), p);
}
