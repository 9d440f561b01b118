use newsletter_rs::domain::SubscriberName;

#[test]
fn a_256_grapheme_long_name_is_valiid() {
    let test_name = "a".repeat(256);
    assert!(SubscriberName::parse(test_name).is_ok());
}

#[test]
fn a_grapheme_longer_than_256_is_invaliid() {
    let test_name = "a".repeat(257);
    assert!(SubscriberName::parse(test_name).is_err());
}

#[test]
fn whitespace_only_names_are_invalid() {
    let test_name = " ".repeat(10);
    assert!(SubscriberName::parse(test_name).is_err());
}

#[test]
fn subscriber_name_empty_string_is_invalid() {
    let test_name = "".to_string();
    assert!(SubscriberName::parse(test_name).is_err());
}

#[test]
fn name_containing_invalid_characters_are_invalid() {
    for c in &['/', '(', ')', '"', '<', '>', '\\', '}', '{'] {
        let name = c.to_string();
        assert!(SubscriberName::parse(name).is_err());
    }
}

#[test]
fn valid_name_is_parsed_properly() {
    let valid_name = "Kevin".to_string();
    assert!(SubscriberName::parse(valid_name).is_ok());
}

#[test]
fn length_is_counted_in_grapheme_clusters_not_characters() {
    // "e" followed by a combining acute accent: two characters, one cluster
    let long_in_chars = "e\u{301}".repeat(256);
    assert_eq!(long_in_chars.chars().count(), 512);
    assert!(SubscriberName::parse(long_in_chars).is_ok());
    assert!(SubscriberName::parse("e\u{301}".repeat(257)).is_err());
}

#[test]
fn other_white_space_characters_make_a_blank_name() {
    assert!(SubscriberName::parse("\t\n \u{a0}\u{3000}".to_string()).is_err());
    assert!(SubscriberName::parse(" x ".to_string()).is_ok());
}

#[test]
fn a_forbidden_character_anywhere_rejects_the_name() {
    assert!(SubscriberName::parse("Ursula {Le} Guin".to_string()).is_err());
    assert!(SubscriberName::parse("a/b".to_string()).is_err());
    assert!(SubscriberName::parse("Ursula Le Guin".to_string()).is_ok());
}

#[test]
fn rejection_message_names_the_input() {
    match SubscriberName::parse("a<b".to_string()) {
        Err(message) => assert_eq!(message, "a<b is not a valid subscriber name"),
        Ok(_) => panic!("accepted a forbidden character"),
    }
    match SubscriberName::parse("".to_string()) {
        Err(message) => assert_eq!(message, " is not a valid subscriber name"),
        Ok(_) => panic!("accepted an empty name"),
    }
}

#[test]
fn accepted_name_keeps_its_text() {
    let name = SubscriberName::parse("le guin".to_string()).unwrap();
    assert_eq!(name.as_ref(), "le guin");
    assert_eq!(name.to_string(), "le guin");
    assert_eq!(name.inner(), "le guin");
}

#[test]
fn name_can_be_changed_in_place() {
    let mut name = SubscriberName::parse("le guin".to_string()).unwrap();
    name.inner_mut().make_ascii_uppercase();
    assert_eq!(name.as_ref(), "LE GUIN");
    name.as_mut().make_ascii_lowercase();
    assert_eq!(name.inner(), "le guin");
}

#[test]
fn a_case_changed_name_is_still_accepted() {
    let mut name = SubscriberName::parse("Ursula Le Guin".to_string()).unwrap();
    name.inner_mut().make_ascii_uppercase();
    let text = name.inner();
    assert_eq!(text.len(), "Ursula Le Guin".len());
    assert!(SubscriberName::parse(text).is_ok());
}

#[test]
fn a_case_changed_long_non_ascii_name_is_still_accepted() {
    // 256 clusters but 510 characters
    let text = format!("{}Le", "e\u{301}".repeat(254));
    let mut name = SubscriberName::parse(text).unwrap();
    name.as_mut().make_ascii_uppercase();
    let changed = name.inner();
    assert_eq!(changed.chars().count(), 510);
    assert!(SubscriberName::parse(changed).is_ok());
}
