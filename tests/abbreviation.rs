use layout_indicator::abbrev::{contains_chars, keyword_abbrev, shorten_name};

#[test]
fn russian_names_give_ru() {
    assert_eq!(shorten_name("Russian"), "RU");
    assert_eq!(shorten_name("RUSSIAN"), "RU");
    assert_eq!(shorten_name("ru-keyboard"), "RU");
}

#[test]
fn english_names_give_en() {
    assert_eq!(shorten_name("US International"), "EN");
    assert_eq!(shorten_name("english (UK)"), "EN");
    assert_eq!(shorten_name("English (US)"), "EN");
}

#[test]
fn names_with_ua_give_ua() {
    assert_eq!(shorten_name("Ukraine (UA)"), "UA");
    assert_eq!(shorten_name("ua"), "UA");
}

#[test]
fn ukrainian_has_no_ua_keyword() {
    // "ukrainian" holds neither "ru", "us", "english" nor "ua", so the first two
    // letters are used.
    assert_eq!(shorten_name("Ukrainian"), "UK");
}

#[test]
fn other_names_take_first_two_letters() {
    assert_eq!(shorten_name("French"), "FR");
    assert_eq!(shorten_name("german"), "GE");
}

#[test]
fn short_names_keep_what_is_there() {
    assert_eq!(shorten_name("x"), "X");
    assert_eq!(shorten_name(""), "");
}

#[test]
fn keyword_match_is_substring_based() {
    // "Belarusian" holds "ru", so it is taken for Russian.
    assert_eq!(shorten_name("Belarusian"), "RU");
}

#[test]
fn ru_is_checked_before_us() {
    assert_eq!(shorten_name("Russian (US layout)"), "RU");
}

#[test]
fn non_ascii_fallback_is_upper_cased() {
    assert_eq!(shorten_name("ελληνικά"), "ΕΛ");
}

#[test]
fn abbreviation_is_repeatable() {
    let a = shorten_name("Ukraine (UA)");
    let b = shorten_name("Ukraine (UA)");
    assert_eq!(a, b);
    assert_eq!(shorten_name("French"), shorten_name("French"));
}

#[test]
fn keyword_lookup_on_lowered_text() {
    assert_eq!(keyword_abbrev("russian"), Some("RU".to_string()));
    assert_eq!(keyword_abbrev("english"), Some("EN".to_string()));
    assert_eq!(keyword_abbrev("xus"), Some("EN".to_string()));
    assert_eq!(keyword_abbrev("uad"), Some("UA".to_string()));
    assert_eq!(keyword_abbrev("french"), None);
    // The keyword checks expect lower-cased text.
    assert_eq!(keyword_abbrev("RUSSIAN"), None);
}

#[test]
fn substring_search() {
    let text: Vec<char> = "hello".chars().collect();
    let yes: Vec<char> = "ll".chars().collect();
    let no: Vec<char> = "lo!".chars().collect();
    let empty: Vec<char> = Vec::new();
    assert!(contains_chars(&text, &yes));
    assert!(!contains_chars(&text, &no));
    assert!(contains_chars(&text, &empty));
    assert!(contains_chars(&empty, &empty));
    assert!(!contains_chars(&empty, &yes));
    assert!(contains_chars(&text, &text));
}
