use duden::{normalize, trim, write_text_trimmed, write_without_shys};

fn frags(parts: &[&str]) -> Vec<String> {
    parts.iter().map(|s| s.to_string()).collect()
}

#[test]
fn boundary_trimming_only() {
    let r = normalize(&frags(&["  a ", " b ", " c  "]), true);
    assert_eq!(r, "a  b  c");
}

#[test]
fn interior_line_breaks_are_kept() {
    let r = normalize(&frags(&["\n  ein ", "\n", " Wort\n  "]), false);
    assert_eq!(r, "ein \n Wort");
}

#[test]
fn soft_hyphens_are_stripped() {
    let r = normalize(&frags(&["Bei\u{AD}spiel"]), true);
    assert_eq!(r, "Beispiel");
}

#[test]
fn soft_hyphens_kept_without_stripping() {
    let r = normalize(&frags(&[" Bei\u{AD}spiel "]), false);
    assert_eq!(r, "Bei\u{AD}spiel");
}

#[test]
fn empty_sequence_normalizes_to_empty() {
    assert_eq!(normalize(&Vec::new(), true), "");
    assert_eq!(normalize(&frags(&["   "]), true), "");
}

#[test]
fn normalization_is_idempotent() {
    for parts in [
        &["  a ", " b ", " c  "][..],
        &["x"][..],
        &[" \t Wort \n"][..],
        &["ein", " ", "Haus "][..],
        &[][..],
    ] {
        for strip in [false, true] {
            let once = normalize(&frags(parts), strip);
            let twice = normalize(&vec![once.clone()], strip);
            assert_eq!(twice, once);
        }
    }
}

#[test]
fn whitespace_only_first_fragment_keeps_next_leading_space() {
    let once = normalize(&frags(&["  ", " b "]), true);
    assert_eq!(once, " b");
    assert_eq!(normalize(&vec![once], true), "b");
}

#[test]
fn write_text_trimmed_appends() {
    let mut out = String::from(">");
    write_text_trimmed(&mut out, true, &frags(&[" Ab\u{AD}c ", " d "]));
    assert_eq!(out, ">Abc  d");
}

#[test]
fn write_without_shys_appends() {
    let mut out = String::from("x");
    write_without_shys(&mut out, "\u{AD}Sil\u{AD}be\u{AD}");
    assert_eq!(out, "xSilbe");
}

#[test]
fn trim_removes_unicode_whitespace() {
    assert_eq!(trim("\u{3000}\t wort \u{a0}\n"), "wort");
    assert_eq!(trim("   "), "");
}
