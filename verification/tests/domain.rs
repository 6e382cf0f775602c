use zero2prod::domain::NewSubscriber;
use zero2prod::domain::SubscriberEmail;
use zero2prod::domain::SubscriberName;
use zero2prod::domain::ValidationError;

#[test]
fn a_valid_name_is_parsed_successfully() {
    let name = SubscriberName::parse("Ursula Le Guin".to_string()).unwrap();
    assert_eq!(name.as_ref(), "Ursula Le Guin");
}

#[test]
fn a_name_comes_back_trimmed() {
    let name = SubscriberName::parse("  le guin ".to_string()).unwrap();
    assert_eq!(name.as_ref(), "le guin");
    let name = SubscriberName::parse("\u{a0}Ursula\u{3000}".to_string()).unwrap();
    assert_eq!(name.as_ref(), "Ursula");
}

#[test]
fn a_name_keeps_the_whitespace_inside_it() {
    let name = SubscriberName::parse(" a  b ".to_string()).unwrap();
    assert_eq!(name.as_ref(), "a  b");
}

#[test]
fn a_256_grapheme_long_name_is_valid() {
    assert!(SubscriberName::parse("a".repeat(256)).is_ok());
}

#[test]
fn a_name_of_257_graphemes_is_rejected() {
    assert_eq!(SubscriberName::parse("a".repeat(257)), Err(ValidationError));
}

#[test]
fn length_is_counted_in_graphemes_not_in_characters() {
    // 256 clusters of two characters each
    let name = "e\u{301}".repeat(256);
    assert_eq!(name.chars().count(), 512);
    assert!(SubscriberName::parse(name).is_ok());
    let name = "e\u{301}".repeat(257);
    assert!(SubscriberName::parse(name).is_err());
}

#[test]
fn length_is_that_of_the_input_before_trimming() {
    let mut name = " ".repeat(200);
    name.push_str(&"a".repeat(57));
    assert!(SubscriberName::parse(name).is_err());
    let mut name = " ".repeat(200);
    name.push_str(&"a".repeat(56));
    let parsed = SubscriberName::parse(name).unwrap();
    assert_eq!(parsed.as_ref(), "a".repeat(56));
}

#[test]
fn an_empty_name_is_rejected() {
    assert_eq!(SubscriberName::parse(String::new()), Err(ValidationError));
}

#[test]
fn whitespace_only_names_are_rejected() {
    assert!(SubscriberName::parse(" ".to_string()).is_err());
    assert!(SubscriberName::parse("   ".to_string()).is_err());
    assert!(SubscriberName::parse("\u{2003}\u{a0}".to_string()).is_err());
}

#[test]
fn names_containing_a_forbidden_character_are_rejected() {
    for c in ['/', '(', ')', '"', '<', '>', '\\', '{', '}'] {
        let name = format!("Ursula{}Le Guin", c);
        assert!(SubscriberName::parse(name).is_err(), "{} was accepted", c);
    }
}

#[test]
fn names_containing_a_control_character_are_rejected() {
    for c in ['\u{0}', '\u{7}', '\t', '\n', '\r', '\u{1f}', '\u{7f}', '\u{85}', '\u{9f}'] {
        let name = format!("Ursula{}Le Guin", c);
        assert!(SubscriberName::parse(name).is_err(), "U+{:04X} was accepted", c as u32);
    }
    assert!(SubscriberName::parse("Ursula\n".to_string()).is_err());
}

#[test]
fn characters_next_to_the_refused_ones_are_accepted() {
    for c in ['\u{20}', '\u{7e}', '\u{a0}', '[', ']', '\'', '.', '-'] {
        let name = format!("Ursula{}Le Guin", c);
        assert!(SubscriberName::parse(name).is_ok(), "U+{:04X} was refused", c as u32);
    }
}

#[test]
fn the_rule_for_names_on_given_measurements() {
    assert!(SubscriberName::check("le guin", 7));
    assert!(SubscriberName::check("le guin", 256));
    assert!(!SubscriberName::check("le guin", 257));
    assert!(!SubscriberName::check("", 0));
    assert!(!SubscriberName::check(" \t ", 3));
    assert!(!SubscriberName::check("le/guin", 7));
    assert!(!SubscriberName::check("le\u{1b}guin", 7));
}

#[test]
fn a_valid_email_is_parsed_successfully() {
    let email = SubscriberEmail::parse("ursula_le_guin@gmail.com".to_string()).unwrap();
    assert_eq!(email.as_ref(), "ursula_le_guin@gmail.com");
}

#[test]
fn a_text_that_is_no_email_is_rejected() {
    assert_eq!(
        SubscriberEmail::parse("definitely-not-an-email".to_string()),
        Err(ValidationError)
    );
}

#[test]
fn empty_string_is_rejected() {
    assert!(SubscriberEmail::parse(String::new()).is_err());
}

#[test]
fn email_missing_at_symbol_is_rejected() {
    assert!(SubscriberEmail::parse("ursuladomain.com".to_string()).is_err());
}

#[test]
fn email_missing_subject_is_rejected() {
    assert!(SubscriberEmail::parse("@domain.com".to_string()).is_err());
}

#[test]
fn an_email_is_kept_as_it_was_written() {
    let email = SubscriberEmail::parse("Ursula.Le.Guin@Example.COM".to_string()).unwrap();
    assert_eq!(email.as_ref(), "Ursula.Le.Guin@Example.COM");
    assert!(SubscriberEmail::parse(" ursula@example.com".to_string()).is_err());
}

#[test]
fn copies_of_validated_values_are_equal_to_them() {
    let subscriber = NewSubscriber {
        name: SubscriberName::parse("le guin".to_string()).unwrap(),
        email: SubscriberEmail::parse("ursula_le_guin@gmail.com".to_string()).unwrap(),
    };
    let copy = subscriber.clone();
    assert_eq!(copy, subscriber);
    assert_eq!(copy.name.as_ref(), "le guin");
    assert_eq!(copy.email.as_ref(), "ursula_le_guin@gmail.com");
}
