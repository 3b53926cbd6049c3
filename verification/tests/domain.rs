use z2p_axum::domain::{NewSubscriber, SubscriberEmail, SubscriberName};
use z2p_axum::form::FormData;

#[test]
fn empty_string_is_rejected() {
    let email = "".to_string();
    assert!(SubscriberEmail::parse(email).is_err());
}

#[test]
fn email_missing_at_symbol_is_rejected() {
    let email = "ursuladomain.com".to_string();
    assert!(SubscriberEmail::parse(email).is_err());
}

#[test]
fn email_missing_subject_is_rejected() {
    let email = "@domain.com".to_string();
    assert!(SubscriberEmail::parse(email).is_err());
}

#[test]
fn email_missing_domain_is_rejected() {
    let email = "ursula@".to_string();
    assert!(SubscriberEmail::parse(email).is_err());
}

#[test]
fn valid_emails_are_parsed_successfully() {
    let samples = vec![
        "ursula_le_guin@gmail.com",
        "email@here.com",
        "weirder-email@here.and.there.com",
        "example@valid-with-hyphens.com",
        "a.b.c@x.yz",
    ];
    for sample in samples {
        let parsed = SubscriberEmail::parse(sample.to_string());
        assert!(parsed.is_ok(), "rejected {}", sample);
        assert_eq!(parsed.unwrap().as_ref(), sample);
    }
}

#[test]
fn a_256_grapheme_long_name_is_valid() {
    let name = "a".repeat(256);
    assert!(SubscriberName::parse(name).is_ok());
}

#[test]
fn a_name_longer_than_256_graphemes_is_rejected() {
    let name = "a".repeat(257);
    assert!(SubscriberName::parse(name).is_err());
}

#[test]
fn whitespace_only_names_are_rejected() {
    let name = " \t\n ".to_string();
    assert!(SubscriberName::parse(name).is_err());
}

#[test]
fn empty_name_is_rejected() {
    assert!(SubscriberName::parse("".to_string()).is_err());
}

#[test]
fn names_containing_a_forbidden_character_are_rejected() {
    for c in ['/', '(', ')', '"', '<', '>', '\\', '{', '}'] {
        let name = format!("Ursula{}Le Guin", c);
        assert!(SubscriberName::parse(name).is_err(), "accepted {}", c);
    }
}

#[test]
fn a_valid_name_is_parsed_successfully() {
    let name = "Ursula Le Guin".to_string();
    let parsed = SubscriberName::parse(name).unwrap();
    assert_eq!(parsed.as_ref(), "Ursula Le Guin");
}

#[test]
fn new_subscriber_requires_both_fields_valid() {
    let good = FormData { email: "ursula@gmail.com".to_string(), name: "le guin".to_string() };
    let ns = NewSubscriber::try_from(good).unwrap();
    assert_eq!(ns.email.as_ref(), "ursula@gmail.com");
    assert_eq!(ns.name.as_ref(), "le guin");

    let bad_name = FormData { email: "ursula@gmail.com".to_string(), name: "".to_string() };
    assert!(NewSubscriber::try_from(bad_name).is_err());

    let bad_email = FormData { email: "not-an-email".to_string(), name: "le guin".to_string() };
    assert!(NewSubscriber::try_from(bad_email).is_err());
}
