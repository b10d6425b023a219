use mailmule::email::EmailAdderess;
use mailmule::subscribe::{check_name, SubscriberName, SubscriptionForm};
use mailmule::ValidationError;

#[test]
fn empty_name_is_rejected() {
    assert!(matches!(SubscriberName::new(String::new()), Err(ValidationError::InvalidName)));
}

#[test]
fn blank_name_is_rejected() {
    assert!(SubscriberName::new("   ".to_string()).is_err());
    assert!(SubscriberName::new("\t\n\u{3000}".to_string()).is_err());
}

#[test]
fn name_of_257_graphemes_is_rejected() {
    assert!(SubscriberName::new("a".repeat(257)).is_err());
}

#[test]
fn name_of_256_graphemes_is_accepted() {
    let name = SubscriberName::new("a".repeat(256)).unwrap();
    assert_eq!(name.as_str().len(), 256);
}

#[test]
fn graphemes_not_chars_are_counted() {
    // 256 clusters, each an `e` and a combining acute accent: 512 chars.
    let s = "e\u{301}".repeat(256);
    assert_eq!(s.chars().count(), 512);
    assert!(SubscriberName::new(s).is_ok());
    assert!(SubscriberName::new("e\u{301}".repeat(257)).is_err());
}

#[test]
fn name_with_forbidden_characters_is_rejected() {
    for c in ['/', '(', ')', '"', '<', '>', '\\', '{', '}'] {
        let name = format!("Ursula {} Le Guin", c);
        assert!(SubscriberName::new(name).is_err());
    }
    assert!(SubscriberName::new("<script>".to_string()).is_err());
}

#[test]
fn ordinary_name_is_accepted() {
    let name = SubscriberName::new("Ursula Le Guin".to_string()).unwrap();
    assert_eq!(name.as_str(), "Ursula Le Guin");
    assert!(SubscriberName::new("  padded  ".to_string()).is_ok());
}

#[test]
fn check_name_takes_the_cluster_count_as_given() {
    assert!(check_name("abc", 3));
    assert!(check_name("abc", 256));
    assert!(!check_name("abc", 257));
    assert!(!check_name("  ", 2));
    assert!(!check_name("a<b", 3));
}

#[test]
fn email_validation() {
    assert!(EmailAdderess::new("ursula@example.com".to_string()).is_ok());
    assert!(matches!(
        EmailAdderess::new("ursula.example.com".to_string()),
        Err(ValidationError::InvalidEmail)
    ));
    assert!(EmailAdderess::new(String::new()).is_err());
    assert!(EmailAdderess::new("@example.com".to_string()).is_err());
    assert_eq!(
        EmailAdderess::new("le.guin@example.com".to_string()).unwrap().as_str(),
        "le.guin@example.com"
    );
}

#[test]
fn form_checks_the_name_first() {
    assert!(matches!(
        SubscriptionForm::new(String::new(), "bad".to_string()),
        Err(ValidationError::InvalidName)
    ));
    assert!(matches!(
        SubscriptionForm::new("Ursula".to_string(), "bad".to_string()),
        Err(ValidationError::InvalidEmail)
    ));
    let f = SubscriptionForm::new("Ursula".to_string(), "ursula@example.com".to_string()).unwrap();
    assert_eq!(f.name.as_str(), "Ursula");
    assert_eq!(f.email.as_str(), "ursula@example.com");
}

#[test]
fn validation_messages() {
    assert_eq!(ValidationError::InvalidEmail.message(), "The given email is invalid.");
    assert!(ValidationError::InvalidName.message().starts_with("The given name is invalid"));
}

#[test]
fn name_message_is_exact() {
    assert_eq!(
        ValidationError::InvalidName.message(),
        "The given name is invalid, it must be non-empty, not longer than 256 characters, and not containing the following characters '/', '(', ')', '\"', '<', '>', '\\', '}', '{'."
    );
}
