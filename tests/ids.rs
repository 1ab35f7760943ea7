use card::ids::{generate_id, CardId, CardTypeId, FieldId};
use card::text::{is_blank_text, is_whitespace};
use std::collections::HashSet;

#[test]
fn test_card_id() {
    let card_id = CardId::from_str("123");
    println!("{:?}", card_id);
    println!("{}", card_id.as_str());

    assert_eq!(card_id.as_str().to_string(), String::from("123"));

    let card_id_str: &str = card_id.as_str();
    assert_eq!(card_id_str, "123");

    assert_eq!(CardId::from_str("123"), CardId::from_str("123"));
}

#[test]
fn it_generates_id() {
    let mut set = HashSet::new();
    for _ in 0..1000_000 {
        set.insert(generate_id());
    }
    assert_eq!(1000_000, set.len());
}

#[test]
fn it_works() {
    let id = generate_id();
    println!("{}", id);
}

#[test]
fn generated_ids_use_digits_and_lower_case_letters() {
    for _ in 0..100 {
        let id = generate_id();
        assert_eq!(id.chars().count(), 16);
        assert!(id.chars().all(|c| c.is_ascii_digit() || c.is_ascii_lowercase()));
    }
    assert_eq!(CardId::new().as_str().len(), 16);
    assert_eq!(FieldId::new().as_str().len(), 16);
    assert_eq!(CardTypeId::new().as_str().len(), 16);
    assert_ne!(CardId::new(), CardId::new());
}

#[test]
fn whitespace_follows_the_unicode_property() {
    for c in ['\t', '\n', '\u{b}', '\u{c}', '\r', ' ', '\u{85}', '\u{a0}', '\u{1680}', '\u{2000}', '\u{200a}', '\u{2028}', '\u{2029}', '\u{202f}', '\u{205f}', '\u{3000}'] {
        assert!(is_whitespace(c), "{:?}", c);
        assert_eq!(is_whitespace(c), c.is_whitespace());
    }
    for c in ['a', '_', '\u{200b}', '\u{feff}', '卡'] {
        assert!(!is_whitespace(c), "{:?}", c);
        assert_eq!(is_whitespace(c), c.is_whitespace());
    }
    assert!(is_blank_text(""));
    assert!(is_blank_text(" \t "));
    assert!(!is_blank_text(" x "));
}
