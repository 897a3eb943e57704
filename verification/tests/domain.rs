use fake::faker::internet::en::SafeEmail;
use fake::Fake;
use zero2prod::domain::SubscribeEmailExt;
use zero2prod::domain::SubscriberEmail;
use zero2prod::domain::SubscriberName;

#[test]
fn empty_string_is_rejected() {
    let email = "".to_string();
    assert!(email.try_into_subscriber_email().is_err());
}

#[test]
fn email_missing_at_symbol_is_rejectd() {
    let email = "ursuladomain.com".to_string();
    assert!(email.try_into_subscriber_email().is_err());
}

#[test]
fn email_missing_subject_is_rejected() {
    let email = "@domain.com".to_string();
    assert!(email.try_into_subscriber_email().is_err());
}

#[test]
fn valid_emails_are_parsed_successfully() {
    for _ in 0..100 {
        let email: String = SafeEmail().fake();
        assert!(
            SubscriberEmail::parse(email.clone()).is_ok(),
            "a generated email was rejected: {}",
            email
        );
    }
}

#[test]
fn a_parsed_email_keeps_its_characters() {
    let email = SubscriberEmail::parse("ursula_le_guin@gmail.com".to_string()).unwrap();
    assert_eq!(email.as_str(), "ursula_le_guin@gmail.com");
}

#[test]
fn email_rejection_names_the_input() {
    let message = SubscriberEmail::parse("ursuladomain.com".to_string()).unwrap_err();
    assert_eq!(message, "ursuladomain.com is not a valid subscriber email.");
}

#[test]
fn email_parse_verdict_is_stable_across_calls() {
    for raw in ["", "@domain.com", "ursula_le_guin@gmail.com", "le guin"] {
        let first = SubscriberEmail::parse(raw.to_string()).is_ok();
        let second = SubscriberEmail::parse(raw.to_string()).is_ok();
        assert_eq!(first, second);
    }
}

#[test]
fn a_256_character_long_name_is_valid() {
    let name = "a".repeat(256);
    assert!(SubscriberName::parse(name).is_ok());
}

#[test]
fn a_name_longer_than_256_characters_is_rejected() {
    let name = "a".repeat(257);
    assert!(SubscriberName::parse(name).is_err());
}

#[test]
fn whitespace_only_names_are_rejected() {
    let name = " ".to_string();
    assert!(SubscriberName::parse(name).is_err());
}

#[test]
fn empty_name_is_rejected() {
    let name = "".to_string();
    assert!(SubscriberName::parse(name).is_err());
}

#[test]
fn names_containing_a_forbidden_character_are_rejected() {
    for forbidden in ['/', '(', ')', '"', '<', '>', '\\', '{', '}'] {
        let name = format!("Ursula {} Le Guin", forbidden);
        assert!(SubscriberName::parse(name).is_err());
    }
}

#[test]
fn a_valid_name_is_parsed_successfully() {
    let name = "Ursula Le Guin".to_string();
    let parsed = SubscriberName::parse(name).unwrap();
    assert_eq!(parsed.as_str(), "Ursula Le Guin");
}

#[test]
fn name_rejection_names_the_input() {
    let message = SubscriberName::parse("{bad}".to_string()).unwrap_err();
    assert_eq!(message, "{bad} is not a valid subscriber name.");
}

#[test]
fn name_parse_verdict_is_stable_across_calls() {
    for raw in ["", "le guin", "   ", "a/b"] {
        let first = SubscriberName::parse(raw.to_string()).is_ok();
        let second = SubscriberName::parse(raw.to_string()).is_ok();
        assert_eq!(first, second);
    }
}
