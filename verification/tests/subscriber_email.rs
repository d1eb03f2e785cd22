use zero2prod::domain::SubscriberEmail;

#[test]
fn subscriber_email_empty_string_is_rejected() {
    let email = "";
    assert!(SubscriberEmail::parse(email.to_string()).is_err());
}

#[test]
fn email_missing_at_symbol_is_rejected() {
    let email = "ursula.com";
    assert!(SubscriberEmail::parse(email.to_string()).is_err());
}

#[test]
fn email_missing_subject_is_rejected() {
    let email = "ursula@";
    assert!(SubscriberEmail::parse(email.to_string()).is_err());
}

#[test]
fn a_well_formed_email_is_parsed_successfully() {
    let email = SubscriberEmail::parse("ursula@domain.com".to_string()).unwrap();
    assert_eq!(email.as_ref(), "ursula@domain.com");
}

#[test]
fn a_rejected_email_is_named_in_the_message() {
    let error = SubscriberEmail::parse("ursula.com".to_string()).unwrap_err();
    assert_eq!(error, "ursula.com is not a valid subscriber email.");
}

#[test]
fn emails_without_a_local_part_or_a_domain_are_rejected() {
    for email in ["@domain.com", "ursula@@domain.com", "ursula @domain.com", "ursula@domain.com\n"] {
        assert!(SubscriberEmail::parse(email.to_string()).is_err(), "{:?}", email);
    }
}

#[test]
fn an_email_can_be_copied() {
    let email = SubscriberEmail::parse("ursula@domain.com".to_string()).unwrap();
    let copy = email.clone();
    assert_eq!(email.as_ref(), copy.as_ref());
}

#[test]
fn the_verdict_of_validation_decides_on_an_email() {
    assert_eq!(Ok(()), SubscriberEmail::verdict("ursula@domain.com", true));
    assert_eq!(
        Err("ursula.com is not a valid subscriber email.".to_string()),
        SubscriberEmail::verdict("ursula.com", false)
    );
}

#[test]
fn an_email_is_given_out_as_text() {
    let email = SubscriberEmail::parse("ursula@domain.com".to_string()).unwrap();
    assert_eq!("ursula@domain.com", email.to_string());
}
