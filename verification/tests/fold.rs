use case_folding::dbx_eq_ignore_case;
use case_folding::dbx_lowercase;
use case_folding::dbx_str_lowercase;
use case_folding::dbx_strip_prefix_ignore_case;
use case_folding::map_pairs;

#[test]
fn test_lowercase() {
    assert_eq!(map_pairs().len(), 893 - 26); // A-Z (26 letters) omitted
    assert_eq!('a', dbx_lowercase('A'));
    assert_eq!('a', dbx_lowercase('a'));
    assert_eq!('ⓜ', dbx_lowercase('Ⓜ'));

    // Capital dotted I lowercases to plain ascii 'i' under the legacy rules,
    // not to the two-codepoint modern result.
    assert_eq!('i', dbx_lowercase('İ'));

    // U+1F88 Greek Capital Letter Alpha With Psili And Prosgegrammeni goes to
    // U+1F80, a single codepoint, not the two-codepoint modern result.
    assert_eq!('\u{1F80}', dbx_lowercase('\u{1F88}'));

    // U+A64A Cyrillic Capital Letter Monograph Uk postdates the table's
    // Unicode revision and is left unchanged.
    assert_eq!('Ꙋ', dbx_lowercase('Ꙋ'));

    // No final-sigma context sensitivity: all three map to the same character.
    assert_eq!("σσσ", dbx_str_lowercase("ΣΣΣ"));

    assert_eq!("hi thére", dbx_str_lowercase("Hİ THÉRE"));
}

#[test]
fn test_helpers() {
    assert_eq!(
        Some("_SUFFIX"),
        dbx_strip_prefix_ignore_case("SİX_SUFFIX", "six")
    );
    assert_eq!(None, dbx_strip_prefix_ignore_case("ABC", "abcd"));
    assert_eq!(Some("ABC"), dbx_strip_prefix_ignore_case("ABC", ""));
    assert!(dbx_eq_ignore_case("Ⓗİ THÉRE", "ⓗi thére"));
    assert!(!dbx_eq_ignore_case("ABCD", "abcde"));
    assert!(dbx_eq_ignore_case("", ""));
    assert!(!dbx_eq_ignore_case("x", ""));
    assert!(!dbx_eq_ignore_case("", "x"));
}

#[test]
fn test_mapping() {
    let mut upper_str = String::new();
    let mut lower_str = String::new();
    for (upper, lower) in map_pairs() {
        assert_eq!(dbx_lowercase(upper), lower);
        assert_eq!(dbx_lowercase(lower), lower);
        upper_str.push(upper);
        lower_str.push(lower);
    }
    assert_eq!(dbx_str_lowercase(&upper_str), lower_str);
}

#[test]
fn test_table_shape() {
    let pairs = map_pairs();
    // strictly ascending uppers, all outside ASCII
    for w in pairs.windows(2) {
        assert!(w[0].0 < w[1].0);
    }
    assert!(pairs[0].0 == '\u{c0}');
    // no pair maps a character to itself
    for (u, l) in &pairs {
        assert_ne!(u, l);
    }
}

#[test]
fn test_fold_preserves_length() {
    let inputs = ["", "A", "Hİ THÉRE", "ΣΣΣ", "ⓗⒽ", "\u{1F88}x"];
    for s in &inputs {
        assert_eq!(dbx_str_lowercase(s).chars().count(), s.chars().count());
    }
}

#[test]
fn test_eq_ignore_case_laws() {
    // reflexivity, including the empty string
    for s in &["", "abc", "Ⓗİ THÉRE"] {
        assert!(dbx_eq_ignore_case(s, s));
    }
    // symmetry on concrete values
    assert_eq!(
        dbx_eq_ignore_case("Ⓗİ", "ⓗi"),
        dbx_eq_ignore_case("ⓗi", "Ⓗİ")
    );
    assert_eq!(
        dbx_eq_ignore_case("ab", "ac"),
        dbx_eq_ignore_case("ac", "ab")
    );
}

#[test]
fn test_strip_prefix_edges() {
    // empty prefix always succeeds and returns the string unchanged
    assert_eq!(Some(""), dbx_strip_prefix_ignore_case("", ""));
    // a prefix that matches the whole string leaves the empty remainder
    assert_eq!(Some(""), dbx_strip_prefix_ignore_case("ABC", "abc"));
    // mismatch in the middle
    assert_eq!(None, dbx_strip_prefix_ignore_case("AXC", "abc"));
    // prefix longer than the string
    assert_eq!(None, dbx_strip_prefix_ignore_case("", "a"));
    // the remainder keeps its original case
    assert_eq!(Some("_TaiL"), dbx_strip_prefix_ignore_case("Ⓗİ_TaiL", "ⓗi"));
}

#[test]
fn test_post_revision_codepoints_unchanged() {
    // characters assigned after the table's Unicode revision fold to themselves
    for c in ['\u{2C60}', '\u{A722}', '\u{0242}', '\u{04CF}'] {
        assert_eq!(c, dbx_lowercase(c));
    }
}
