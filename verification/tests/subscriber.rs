use newsletter_admin::subscriber::{confirmed_subscribers, InvalidSubscriberEmail, SubscriberEmail};

#[test]
fn a_valid_email_is_parsed() {
    let email = SubscriberEmail::parse("ursula@domain.com".to_string()).unwrap();
    assert_eq!(email.as_str(), "ursula@domain.com");
}

#[test]
fn invalid_emails_are_refused_and_kept() {
    for raw in ["", "ursuladomain.com", "@domain.com", "a @x.cz"] {
        assert_eq!(
            SubscriberEmail::parse(raw.to_string()),
            Err(InvalidSubscriberEmail { email: raw.to_string() })
        );
    }
}

#[test]
fn from_validation_follows_the_answer() {
    assert!(SubscriberEmail::from_validation("whatever".to_string(), true).is_ok());
    assert_eq!(
        SubscriberEmail::from_validation("whatever".to_string(), false),
        Err(InvalidSubscriberEmail { email: "whatever".to_string() })
    );
}

#[test]
fn confirmed_subscribers_keep_order_and_length() {
    let rows = vec!["a@example.com".to_string(), "broken".to_string(), "c@example.com".to_string()];
    let subscribers = confirmed_subscribers(&rows);
    assert_eq!(subscribers.len(), 3);
    assert_eq!(subscribers[0].as_ref().unwrap().email.as_str(), "a@example.com");
    assert_eq!(subscribers[1], Err(InvalidSubscriberEmail { email: "broken".to_string() }));
    assert_eq!(subscribers[2].as_ref().unwrap().email.as_str(), "c@example.com");
}
