use sodexo_webhook::text::{chars_of, contains};

#[test]
fn chars_of_gives_one_element_per_char() {
    assert_eq!(chars_of("pähkinä"), vec!['p', 'ä', 'h', 'k', 'i', 'n', 'ä']);
    assert_eq!(chars_of(""), Vec::<char>::new());
    assert_eq!(chars_of("🥜€"), vec!['🥜', '€']);
}

#[test]
fn contains_finds_a_part() {
    assert!(contains("maapähkinä", "pähkinä"));
    assert!(contains("pähkinä", "pähkinä"));
    assert!(contains("pähkinää", "pähkinä"));
    assert!(contains("abc", ""));
    assert!(contains("", ""));
    assert!(contains("abcabd", "abd"));
    assert!(contains("aab", "ab"));
}

#[test]
fn contains_refuses_what_is_no_part() {
    assert!(!contains("", "a"));
    assert!(!contains("pähkin", "pähkinä"));
    assert!(!contains("pahkina", "pähkinä"));
    assert!(!contains("p ähkinä", "pähkinä"));
    assert!(!contains("abc", "abcd"));
    assert!(!contains("abcabc", "abd"));
}

#[test]
fn contains_agrees_with_the_standard_library() {
    let texts = ["", "a", "ab", "aab", "aba", "äö", "öä", "pähkinä", "maapähkinävoi", "🥜", "a🥜b"];
    for hay in texts {
        for needle in texts {
            assert_eq!(contains(hay, needle), hay.contains(needle), "{hay:?} {needle:?}");
        }
    }
}
