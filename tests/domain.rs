use z2p_auth::domain::{NewSubscriber, SubscriberEmail};
use z2p_auth::startup::ApplicationBaseUrl;

#[test]
fn valid_email_is_parsed() {
    let email = SubscriberEmail::parse("ursula@domain.com".to_string()).unwrap();
    assert_eq!(email.as_ref(), "ursula@domain.com");
    assert_eq!(email.to_string(), "ursula@domain.com");
    let subscriber = NewSubscriber { email, name: "Ursula".to_string() };
    assert_eq!(subscriber.name, "Ursula");
}

#[test]
fn invalid_emails_are_rejected() {
    for s in ["", "ursuladomain.com", "@domain.com"] {
        let r = SubscriberEmail::parse(s.to_string());
        assert_eq!(r.err(), Some(format!("{} is not a valid subscriber email.", s)));
    }
}

#[test]
fn base_url_keeps_its_text() {
    let url = ApplicationBaseUrl("http://127.0.0.1".to_string());
    assert_eq!(url.0, "http://127.0.0.1");
}
