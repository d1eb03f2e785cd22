use argon2::password_hash::{PasswordHasher, SaltString};
use argon2::Argon2;
use base64::Engine;
use zero2prod::collaborators::{
    Email, StoredCredentials, Subscriber, SubscriberStatus, Unavailable,
};
use zero2prod::routes::newsletters::{
    response_status_code as publish_status, AuthFailure, BodyData, Content, PublishAction,
    PublishError, PublishEvent, PublishFault, PublishState,
};
use zero2prod::routes::subscriptions::{
    response_status_code as subscribe_status, ApplicationBaseUrl, SubscribeAction,
    SubscribeError, SubscribeEvent, SubscribeFault, SubscribeState,
};
use zero2prod::routes::subscriptions_confirm::{
    response_status_code as confirm_status, ConfirmAction, ConfirmError, ConfirmEvent,
    ConfirmFault, ConfirmState, Parameters,
};
use zero2prod::routes::{confirm, publish_newsletter, subscribe, FormData};
use zero2prod::secret::SecretText;

/// The collaborators of the services, held in memory.
struct TestApp {
    address: String,
    subscriptions: Vec<Subscriber>,
    subscription_tokens: Vec<(String, u128)>,
    users: Vec<(String, u128, String)>,
    email_requests: Vec<Email>,
    test_user: TestUser,
    /// The number of dispatches that succeed before the service goes down.
    dispatches_left: Option<usize>,
    store_is_up: bool,
}

struct TestUser {
    username: String,
    password: String,
}

struct ConfirmationLinks {
    html: String,
    plain_text: String,
}

fn spawn_app() -> TestApp {
    let test_user = TestUser {
        username: "7c9e6679-7425-40de-944b-e07fc1f90ae7".to_string(),
        password: "0f8fad5b-d9cb-469f-a165-70867728950e".to_string(),
    };
    let salt = SaltString::encode_b64(b"a salt for tests").unwrap();
    let password_hash = Argon2::default()
        .hash_password(test_user.password.as_bytes(), &salt)
        .unwrap()
        .to_string();
    TestApp {
        address: "http://localhost".to_string(),
        subscriptions: Vec::new(),
        subscription_tokens: Vec::new(),
        users: vec![(test_user.username.clone(), 42, password_hash)],
        email_requests: Vec::new(),
        test_user,
        dispatches_left: None,
        store_is_up: true,
    }
}

fn basic_auth(username: &str, password: &str) -> Vec<u8> {
    let encoded =
        base64::engine::general_purpose::STANDARD.encode(format!("{}:{}", username, password));
    format!("Basic {}", encoded).into_bytes()
}

fn newsletter(title: Option<&str>, content: Option<(&str, &str)>) -> (Option<String>, Option<Content>) {
    (
        title.map(|title| title.to_string()),
        content.map(|(text, html)| Content { html: html.to_string(), text: text.to_string() }),
    )
}

impl TestApp {
    fn store(&self) -> Result<(), Unavailable> {
        if self.store_is_up {
            Ok(())
        } else {
            Err(Unavailable)
        }
    }

    fn dispatch(&mut self, email: Email) -> Result<(), Unavailable> {
        match self.dispatches_left {
            Some(0) => Err(Unavailable),
            Some(left) => {
                self.dispatches_left = Some(left - 1);
                self.email_requests.push(email);
                Ok(())
            }
            None => {
                self.email_requests.push(email);
                Ok(())
            }
        }
    }

    /// Posts a subscription form, given by its fields, and hands back the status.
    fn post_subscriptions(&mut self, name: Option<&str>, email: Option<&str>) -> u16 {
        let form = match FormData::from_fields(
            name.map(|name| name.to_string()),
            email.map(|email| email.to_string()),
        ) {
            Ok(form) => form,
            Err(malformed) => return malformed.status_code(),
        };
        let request =
            SubscribeEvent::Request { form, base_url: ApplicationBaseUrl(self.address.clone()) };
        let mut staged_subscriber = None;
        let mut staged_token = None;
        let (mut state, mut action) = subscribe(SubscribeState::Idle, request);
        loop {
            let outcome = match action {
                SubscribeAction::BeginTransaction => self.store(),
                SubscribeAction::InsertSubscriber(subscriber) => self.store().map(|_| {
                    staged_subscriber = Some(subscriber);
                }),
                SubscribeAction::StoreToken { subscription_token, subscriber_id } => {
                    self.store().map(|_| {
                        staged_token = Some((subscription_token, subscriber_id));
                    })
                }
                SubscribeAction::Commit => self.store().map(|_| {
                    self.subscriptions.extend(staged_subscriber.take());
                    self.subscription_tokens.extend(staged_token.take());
                }),
                SubscribeAction::SendEmail(email) => self.dispatch(email),
                SubscribeAction::Respond(response) => return subscribe_status(&response),
            };
            (state, action) = subscribe(state, SubscribeEvent::Done(outcome));
        }
    }

    /// Follows a confirmation link, given by its token, and hands back the status.
    fn get_confirm(&mut self, subscription_token: Option<&str>) -> u16 {
        let parameters =
            match Parameters::from_fields(subscription_token.map(|token| token.to_string())) {
                Ok(parameters) => parameters,
                Err(malformed) => return malformed.status_code(),
            };
        let (mut state, mut action) = confirm(ConfirmState::Idle, ConfirmEvent::Request(parameters));
        loop {
            let event = match action {
                ConfirmAction::FindSubscriber { subscription_token } => {
                    ConfirmEvent::Found(self.store().map(|_| {
                        self.subscription_tokens
                            .iter()
                            .find(|(token, _)| *token == subscription_token)
                            .map(|(_, subscriber_id)| *subscriber_id)
                    }))
                }
                ConfirmAction::ConfirmSubscriber { subscriber_id } => {
                    ConfirmEvent::Done(self.store().map(|_| {
                        for subscriber in self.subscriptions.iter_mut() {
                            if subscriber.id == subscriber_id {
                                subscriber.status = SubscriberStatus::Confirmed;
                            }
                        }
                    }))
                }
                ConfirmAction::Respond(response) => return confirm_status(&response),
            };
            (state, action) = confirm(state, event);
        }
    }

    /// Posts an issue with the given header and hands back the answer.
    fn publish(
        &mut self,
        authorization: Option<Vec<u8>>,
        issue: BodyData,
    ) -> Result<(), PublishError> {
        let request = PublishEvent::Request { authorization, issue };
        let (mut state, mut action) = publish_newsletter(PublishState::Idle, request);
        loop {
            let event = match action {
                PublishAction::FetchCredentials { username } => {
                    PublishEvent::Credentials(self.store().map(|_| {
                        self.users.iter().find(|(name, _, _)| *name == username).map(
                            |(_, user_id, password_hash)| StoredCredentials {
                                user_id: *user_id,
                                password_hash: SecretText::new(password_hash.clone()),
                            },
                        )
                    }))
                }
                PublishAction::FetchConfirmedSubscribers => {
                    PublishEvent::Subscribers(self.store().map(|_| {
                        self.subscriptions
                            .iter()
                            .filter(|subscriber| subscriber.status == SubscriberStatus::Confirmed)
                            .map(|subscriber| subscriber.email.as_ref().to_string())
                            .collect()
                    }))
                }
                PublishAction::SendEmail(email) => PublishEvent::Dispatched(self.dispatch(email)),
                PublishAction::Respond(response) => return response,
            };
            (state, action) = publish_newsletter(state, event);
        }
    }

    /// Posts an issue, given by its fields, as the test user and hands back the status.
    fn post_newsletters(&mut self, title: Option<&str>, content: Option<(&str, &str)>) -> u16 {
        let (title, content) = newsletter(title, content);
        let issue = match BodyData::from_fields(title, content) {
            Ok(issue) => issue,
            Err(malformed) => return malformed.status_code(),
        };
        let authorization = basic_auth(&self.test_user.username, &self.test_user.password);
        publish_status(&self.publish(Some(authorization), issue))
    }

    fn get_confirmation_links(&self, email_request: &Email) -> ConfirmationLinks {
        let get_link = |s: &str| {
            let start = s.find("http://").unwrap();
            let rest = &s[start..];
            let end = rest.find(|c: char| c == '"' || c == '<' || c.is_whitespace());
            let link = match end {
                Some(end) => &rest[..end],
                None => rest,
            };
            assert!(link.starts_with("http://localhost/"));
            link.to_string()
        };
        ConfirmationLinks {
            html: get_link(&email_request.html_content),
            plain_text: get_link(&email_request.text_content),
        }
    }
}

/// The token that a confirmation link carries.
fn token_of(link: &str) -> &str {
    let (path, token) = link.split_once("?subscription_token=").unwrap();
    assert_eq!(path, "http://localhost/subscriptions/confirm");
    token
}

fn create_unconfirmed_subscriber(app: &mut TestApp) -> ConfirmationLinks {
    let status = app.post_subscriptions(Some("le guin"), Some("ursula_le_guin@gmail.com"));
    assert_eq!(200, status);
    let email_request = app.email_requests.pop().unwrap();
    app.get_confirmation_links(&email_request)
}

fn create_confirmed_subscriber(app: &mut TestApp) {
    let confirmation_link = create_unconfirmed_subscriber(app);
    assert_eq!(200, app.get_confirm(Some(token_of(&confirmation_link.html))));
}

#[test]
fn newsletters_are_not_delivered_to_unconfirmed_subscribers() {
    let mut app = spawn_app();
    create_unconfirmed_subscriber(&mut app);

    let status = app.post_newsletters(
        Some("Newsletter title"),
        Some(("Newsletter content", "<h1>Newsletter content</h1>")),
    );

    assert_eq!(200, status);
    assert_eq!(0, app.email_requests.len());
}

#[test]
fn newsletters_are_delivered_to_confirmed_subscribers() {
    let mut app = spawn_app();
    create_confirmed_subscriber(&mut app);

    let status = app.post_newsletters(
        Some("Newsletter title"),
        Some(("Newsletter content", "<h1>Newsletter content</h1>")),
    );

    assert_eq!(200, status);
    assert_eq!(1, app.email_requests.len());
    let email = &app.email_requests[0];
    assert_eq!("ursula_le_guin@gmail.com", email.recipient.as_ref());
    assert_eq!("Newsletter title", email.subject);
    assert_eq!("Newsletter content", email.text_content);
    assert_eq!("<h1>Newsletter content</h1>", email.html_content);
}

#[test]
fn newsletter_returns_400_for_invalid_data() {
    let mut app = spawn_app();
    let test_cases = [
        (None, Some(("text", "<p>Newsletter body as HTML</p>")), "missing title"),
        (Some("Newsletter"), None, "missing content"),
    ];

    for (title, content, error_message) in test_cases {
        let status = app.post_newsletters(title, content);

        assert_eq!(
            400, status,
            "The API did not fail with 400 Bad Request when the payload was {}.",
            error_message
        );
    }
}

#[test]
fn content_without_a_rendering_is_malformed() {
    assert!(Content::from_fields(None, Some("text".to_string())).is_err());
    assert!(Content::from_fields(Some("<p>html</p>".to_string()), None).is_err());
    let content =
        Content::from_fields(Some("<p>html</p>".to_string()), Some("text".to_string())).unwrap();
    assert_eq!("<p>html</p>", content.html);
    assert_eq!("text", content.text);
}

#[test]
fn requests_missing_authorization_are_rejected() {
    let mut app = spawn_app();
    create_confirmed_subscriber(&mut app);
    let (title, content) = newsletter(
        Some("Newsletter title"),
        Some(("Newsletter content", "<h1>Newsletter content</h1>")),
    );
    let issue = BodyData::from_fields(title, content).unwrap();

    let response = app.publish(None, issue);

    assert_eq!(Err(PublishError::AuthError(AuthFailure::MissingHeader)), response);
    assert_eq!(401, publish_status(&response));
    let error_response = response.unwrap_err().error_response();
    assert_eq!(401, error_response.status_code);
    assert_eq!(Some(r#"Basic realm="publish""#), error_response.www_authenticate);
    assert_eq!(0, app.email_requests.len());
}

#[test]
fn a_wrong_password_for_an_existing_user_is_rejected() {
    let mut app = spawn_app();
    create_confirmed_subscriber(&mut app);
    let (title, content) = newsletter(Some("title"), Some(("text", "<p>html</p>")));
    let issue = BodyData::from_fields(title, content).unwrap();
    let authorization = basic_auth(&app.test_user.username, "not the password");

    let response = app.publish(Some(authorization), issue);

    assert_eq!(Err(PublishError::AuthError(AuthFailure::InvalidPassword)), response);
    assert_eq!(401, publish_status(&response));
    assert_eq!(0, app.email_requests.len());
}

#[test]
fn an_unknown_user_is_rejected() {
    let mut app = spawn_app();
    let (title, content) = newsletter(Some("title"), Some(("text", "<p>html</p>")));
    let issue = BodyData::from_fields(title, content).unwrap();
    let authorization = basic_auth("nobody", &app.test_user.password);

    let response = app.publish(Some(authorization), issue);

    assert_eq!(Err(PublishError::AuthError(AuthFailure::UnknownUsername)), response);
    assert_eq!(401, publish_status(&response));
}

#[test]
fn a_malformed_stored_hash_is_an_unexpected_error() {
    let mut app = spawn_app();
    app.users[0].2 = "not a PHC string".to_string();
    let (title, content) = newsletter(Some("title"), Some(("text", "<p>html</p>")));
    let issue = BodyData::from_fields(title, content).unwrap();
    let authorization = basic_auth(&app.test_user.username, &app.test_user.password);

    let response = app.publish(Some(authorization), issue);

    assert_eq!(Err(PublishError::UnexpectedError(PublishFault::MalformedPasswordHash)), response);
    assert_eq!(500, publish_status(&response));
    let error_response = response.unwrap_err().error_response();
    assert_eq!(500, error_response.status_code);
    assert_eq!(None, error_response.www_authenticate);
}

#[test]
fn every_confirmed_subscriber_gets_one_email_and_pending_ones_get_none() {
    let mut app = spawn_app();
    for (name, email, confirms) in [
        ("first", "first@example.com", true),
        ("second", "second@example.com", false),
        ("third", "third@example.com", true),
    ] {
        assert_eq!(200, app.post_subscriptions(Some(name), Some(email)));
        let email_request = app.email_requests.pop().unwrap();
        if confirms {
            let links = app.get_confirmation_links(&email_request);
            assert_eq!(200, app.get_confirm(Some(token_of(&links.html))));
        }
    }

    let status = app.post_newsletters(Some("title"), Some(("text", "<p>html</p>")));

    assert_eq!(200, status);
    let recipients: Vec<&str> =
        app.email_requests.iter().map(|email| email.recipient.as_ref()).collect();
    assert_eq!(vec!["first@example.com", "third@example.com"], recipients);
}

#[test]
fn the_first_failed_dispatch_ends_the_publication() {
    let mut app = spawn_app();
    for (name, email) in
        [("first", "first@example.com"), ("second", "second@example.com"), ("third", "third@example.com")]
    {
        assert_eq!(200, app.post_subscriptions(Some(name), Some(email)));
        let email_request = app.email_requests.pop().unwrap();
        let links = app.get_confirmation_links(&email_request);
        assert_eq!(200, app.get_confirm(Some(token_of(&links.html))));
    }
    app.dispatches_left = Some(1);
    let (title, content) = newsletter(Some("title"), Some(("text", "<p>html</p>")));
    let issue = BodyData::from_fields(title, content).unwrap();
    let authorization = basic_auth(&app.test_user.username, &app.test_user.password);

    let response = app.publish(Some(authorization), issue);

    assert_eq!(Err(PublishError::UnexpectedError(PublishFault::Delivery)), response);
    assert_eq!(500, publish_status(&response));
    assert_eq!(1, app.email_requests.len());
    assert_eq!("first@example.com", app.email_requests[0].recipient.as_ref());
}

#[test]
fn a_store_that_is_down_is_an_unexpected_error_for_the_publisher() {
    let mut app = spawn_app();
    app.store_is_up = false;
    let (title, content) = newsletter(Some("title"), Some(("text", "<p>html</p>")));
    let issue = BodyData::from_fields(title, content).unwrap();
    let authorization = basic_auth(&app.test_user.username, &app.test_user.password);

    let response = app.publish(Some(authorization), issue);

    assert_eq!(Err(PublishError::UnexpectedError(PublishFault::CredentialsQuery)), response);
    assert_eq!(500, publish_status(&response));
}

#[test]
fn an_event_out_of_turn_ends_the_publication() {
    let (state, action) =
        publish_newsletter(PublishState::Idle, PublishEvent::Dispatched(Ok(())));

    assert!(matches!(state, PublishState::Finished));
    assert!(matches!(
        action,
        PublishAction::Respond(Err(PublishError::UnexpectedError(PublishFault::OutOfTurn)))
    ));
}

#[test]
fn subscribe_returns_a_200_for_valid_form_data() {
    let mut app = spawn_app();

    let status = app.post_subscriptions(Some("le guin"), Some("ursula_le_guin@gmail.com"));

    assert_eq!(200, status);
    assert_eq!(1, app.email_requests.len());
}

#[test]
fn subscriber_persists_the_new_subscriber() {
    let mut app = spawn_app();

    app.post_subscriptions(Some("le guin"), Some("ursula_le_guin@gmail.com"));

    assert_eq!(1, app.subscriptions.len());
    let saved = &app.subscriptions[0];
    assert_eq!("ursula_le_guin@gmail.com", saved.email.as_ref());
    assert_eq!("le guin", saved.name.as_ref());
    assert_eq!("pending_confirmation", saved.status.as_str());
    assert_eq!(1, app.subscription_tokens.len());
    assert_eq!(saved.id, app.subscription_tokens[0].1);
}

#[test]
fn subscribe_returns_a_400_when_fields_are_present_but_empty() {
    let mut app = spawn_app();
    let test_cases = vec![
        ("", "ursula_le_guin@gmail.com", "empty name"),
        ("Ursula", "", "empty email"),
        ("Ursula", "definitely-not-an-email", "invalid email"),
    ];

    for (name, email, description) in test_cases {
        let status = app.post_subscriptions(Some(name), Some(email));

        assert_eq!(
            400, status,
            "The API did not return a 400 when the payload was {}.",
            description
        );
    }
    assert_eq!(0, app.subscriptions.len());
    assert_eq!(0, app.subscription_tokens.len());
    assert_eq!(0, app.email_requests.len());
}

#[test]
fn subscribe_returns_a_400_when_data_is_missing() {
    let mut app = spawn_app();
    let test_cases = vec![
        (Some("le guin"), None, "missing the email"),
        (None, Some("ursula_le_guin@gmail.com"), "missing the name"),
        (None, None, "missing both name and email"),
    ];

    for (name, email, error_message) in test_cases {
        let status = app.post_subscriptions(name, email);

        assert_eq!(
            400, status,
            "The API did not return a 400 when the payload was {}.",
            error_message
        );
    }
}

#[test]
fn subscribe_sends_a_confirmation_email_for_valid_data() {
    let mut app = spawn_app();

    app.post_subscriptions(Some("le guin"), Some("ursula_le_guin@gmail.com"));

    assert_eq!(1, app.email_requests.len());
    assert_eq!("ursula_le_guin@gmail.com", app.email_requests[0].recipient.as_ref());
    assert_eq!("Welcome!", app.email_requests[0].subject);
}

#[test]
fn subscribe_sends_a_confirmation_email_with_a_link() {
    let mut app = spawn_app();

    app.post_subscriptions(Some("le guin"), Some("ursula_le_guin@gmail.com"));

    let email_request = &app.email_requests[0];
    let links = app.get_confirmation_links(email_request);
    assert_eq!(links.html, links.plain_text);
    assert_eq!(app.subscription_tokens[0].0, token_of(&links.html));
    let link = &links.html;
    assert_eq!(
        format!(
            "Welcome to the newsletter, le guin! Click <a href=\"{}\">here</a> to confirm your subscription.",
            link
        ),
        email_request.html_content
    );
    assert_eq!(
        format!(
            "Welcome to the newsletter, le guin! Click here to confirm your subscription: {}",
            link
        ),
        email_request.text_content
    );
}

#[test]
fn subscribe_fails_with_a_500_when_the_store_is_down() {
    let mut app = spawn_app();
    app.store_is_up = false;

    let status = app.post_subscriptions(Some("le guin"), Some("ursula_le_guin@gmail.com"));

    assert_eq!(500, status);
    assert_eq!(0, app.subscriptions.len());
    assert_eq!(0, app.email_requests.len());
}

#[test]
fn subscribe_fails_with_a_500_when_the_email_is_not_dispatched() {
    let mut app = spawn_app();
    app.dispatches_left = Some(0);

    let status = app.post_subscriptions(Some("le guin"), Some("ursula_le_guin@gmail.com"));

    assert_eq!(500, status);
    assert_eq!(1, app.subscriptions.len());
    assert_eq!(1, app.subscription_tokens.len());
}

#[test]
fn each_step_of_a_subscription_names_its_own_fault() {
    let faults = [
        SubscribeFault::Connection,
        SubscribeFault::InsertSubscriber,
        SubscribeFault::StoreToken,
        SubscribeFault::Commit,
        SubscribeFault::SendEmail,
    ];
    for (failing, expected) in faults.into_iter().enumerate() {
        let form = FormData {
            email: "ursula_le_guin@gmail.com".to_string(),
            name: "le guin".to_string(),
        };
        let request = SubscribeEvent::Request {
            form,
            base_url: ApplicationBaseUrl("http://localhost".to_string()),
        };
        let (mut state, mut action) = subscribe(SubscribeState::Idle, request);
        let mut step = 0;
        let response = loop {
            if let SubscribeAction::Respond(response) = action {
                break response;
            }
            let outcome = if step == failing { Err(Unavailable) } else { Ok(()) };
            (state, action) = subscribe(state, SubscribeEvent::Done(outcome));
            step += 1;
        };
        assert!(matches!(state, SubscribeState::Finished));
        match response {
            Err(SubscribeError::UnexpectedError(fault)) => assert_eq!(expected, fault),
            other => panic!("the subscription did not fail: {:?}", other),
        }
    }
}

#[test]
fn an_event_out_of_turn_ends_the_subscription() {
    let (state, action) = subscribe(SubscribeState::Idle, SubscribeEvent::Done(Ok(())));

    assert!(matches!(state, SubscribeState::Finished));
    assert!(matches!(
        action,
        SubscribeAction::Respond(Err(SubscribeError::UnexpectedError(SubscribeFault::OutOfTurn)))
    ));
}

#[test]
fn confirmations_without_toke_are_rejected_with_a_400() {
    let mut app = spawn_app();

    let status = app.get_confirm(None);

    assert_eq!(400, status);
}

#[test]
fn the_link_returned_by_subscribe_returns_a_200_if_called_with_a_valid_token() {
    let mut app = spawn_app();
    app.post_subscriptions(Some("le guin"), Some("ursula_le_guin@gmail.com"));
    let email_request = &app.email_requests[0];
    let confirmation_links = app.get_confirmation_links(email_request);

    let status = app.get_confirm(Some(token_of(&confirmation_links.html)));

    assert_eq!(200, status);
}

#[test]
fn clicking_on_the_confirmation_link_confirms_a_subscriber() {
    let mut app = spawn_app();
    app.post_subscriptions(Some("le guin"), Some("ursula_le_guin@gmail.com"));
    let email_request = &app.email_requests[0];
    let confirmation_links = app.get_confirmation_links(email_request);

    app.get_confirm(Some(token_of(&confirmation_links.html)));

    assert_eq!(1, app.subscriptions.len());
    let saved = &app.subscriptions[0];
    assert_eq!("ursula_le_guin@gmail.com", saved.email.as_ref());
    assert_eq!("le guin", saved.name.as_ref());
    assert_eq!("confirmed", saved.status.as_str());
}

#[test]
fn confirmations_with_an_unknown_token_are_rejected_with_a_401() {
    let mut app = spawn_app();
    app.post_subscriptions(Some("le guin"), Some("ursula_le_guin@gmail.com"));

    let status = app.get_confirm(Some("0123456789abcdefghijklmno"));

    assert_eq!(401, status);
    assert_eq!(SubscriberStatus::Pending, app.subscriptions[0].status);
}

#[test]
fn confirming_twice_with_the_same_token_is_a_200_both_times() {
    let mut app = spawn_app();
    app.post_subscriptions(Some("le guin"), Some("ursula_le_guin@gmail.com"));
    let email_request = &app.email_requests[0];
    let confirmation_links = app.get_confirmation_links(email_request);
    let token = token_of(&confirmation_links.html).to_string();

    assert_eq!(200, app.get_confirm(Some(&token)));
    assert_eq!(SubscriberStatus::Confirmed, app.subscriptions[0].status);
    assert_eq!(200, app.get_confirm(Some(&token)));
    assert_eq!(SubscriberStatus::Confirmed, app.subscriptions[0].status);
    assert_eq!(1, app.subscriptions.len());
}

#[test]
fn confirmations_fail_with_a_500_when_the_store_is_down() {
    let mut app = spawn_app();
    app.store_is_up = false;

    let status = app.get_confirm(Some("0123456789abcdefghijklmno"));

    assert_eq!(500, status);
}

#[test]
fn a_failed_update_is_a_500() {
    let parameters = Parameters { subscription_token: "token".to_string() };
    let (state, _) = confirm(ConfirmState::Idle, ConfirmEvent::Request(parameters));
    let (state, action) = confirm(state, ConfirmEvent::Found(Ok(Some(7))));
    assert!(matches!(action, ConfirmAction::ConfirmSubscriber { subscriber_id: 7 }));

    let (state, action) = confirm(state, ConfirmEvent::Done(Err(Unavailable)));

    assert_eq!(ConfirmState::Finished, state);
    match action {
        ConfirmAction::Respond(response) => {
            assert_eq!(Err(ConfirmError::UnexpectedError(ConfirmFault::StatusUpdate)), response);
            assert_eq!(500, confirm_status(&response));
        }
        _ => panic!("the confirmation did not answer"),
    }
}

#[test]
fn an_event_out_of_turn_ends_the_confirmation() {
    let (state, action) = confirm(ConfirmState::LookingUp, ConfirmEvent::Done(Ok(())));

    assert_eq!(ConfirmState::Finished, state);
    assert!(matches!(
        action,
        ConfirmAction::Respond(Err(ConfirmError::UnexpectedError(ConfirmFault::OutOfTurn)))
    ));
}

fn an_issue() -> BodyData {
    BodyData {
        title: "Newsletter title".to_string(),
        content: Content {
            html: "<h1>Newsletter content</h1>".to_string(),
            text: "Newsletter content".to_string(),
        },
    }
}

#[test]
fn subscribers_that_cannot_be_fetched_are_an_unexpected_error() {
    let state = PublishState::Selecting { issue: an_issue() };

    let (state, action) = publish_newsletter(state, PublishEvent::Subscribers(Err(Unavailable)));

    assert!(matches!(state, PublishState::Finished));
    match action {
        PublishAction::Respond(response) => {
            assert_eq!(
                Err(PublishError::UnexpectedError(PublishFault::SubscribersQuery)),
                response
            );
            assert_eq!(500, publish_status(&response));
        }
        _ => panic!("the publication did not answer"),
    }
}

#[test]
fn stored_addresses_that_are_no_longer_valid_are_skipped() {
    let state = PublishState::Selecting { issue: an_issue() };
    let rows = vec![
        "not an address".to_string(),
        "first@example.com".to_string(),
        "".to_string(),
        "second@example.com".to_string(),
        "also@not@an@address".to_string(),
    ];

    let (mut state, mut action) = publish_newsletter(state, PublishEvent::Subscribers(Ok(rows)));
    let mut recipients = Vec::new();
    let response = loop {
        match action {
            PublishAction::SendEmail(email) => {
                assert_eq!("Newsletter title", email.subject);
                assert_eq!("<h1>Newsletter content</h1>", email.html_content);
                assert_eq!("Newsletter content", email.text_content);
                recipients.push(email.recipient.to_string());
            }
            PublishAction::Respond(response) => break response,
            _ => panic!("the publication asked for something else"),
        }
        (state, action) = publish_newsletter(state, PublishEvent::Dispatched(Ok(())));
    };

    assert_eq!(Ok(()), response);
    assert_eq!(200, publish_status(&response));
    assert_eq!(vec!["first@example.com", "second@example.com"], recipients);
}

#[test]
fn an_issue_without_recipients_is_published_at_once() {
    let state = PublishState::Selecting { issue: an_issue() };

    let (state, action) = publish_newsletter(state, PublishEvent::Subscribers(Ok(Vec::new())));

    assert!(matches!(state, PublishState::Finished));
    assert!(matches!(action, PublishAction::Respond(Ok(()))));
}

#[test]
fn the_store_is_asked_for_the_user_of_the_header() {
    let request = PublishEvent::Request {
        authorization: Some(basic_auth("ursula", "everything-is-fine")),
        issue: an_issue(),
    };

    let (state, action) = publish_newsletter(PublishState::Idle, request);

    match state {
        PublishState::Authenticating { credentials, issue } => {
            assert_eq!("ursula", credentials.username);
            assert_eq!("everything-is-fine", credentials.password.expose_secret());
            assert_eq!("Newsletter title", issue.title);
        }
        _ => panic!("the publication does not wait for the credentials"),
    }
    match action {
        PublishAction::FetchCredentials { username } => assert_eq!("ursula", username),
        _ => panic!("the publication did not ask for the credentials"),
    }
}

#[test]
fn a_form_that_is_not_valid_is_answered_with_the_message_that_rejects_it() {
    let request = SubscribeEvent::Request {
        form: FormData { email: "ursula_le_guin@gmail.com".to_string(), name: "<le guin>".to_string() },
        base_url: ApplicationBaseUrl("http://localhost".to_string()),
    };

    let (state, action) = subscribe(SubscribeState::Idle, request);

    assert!(matches!(state, SubscribeState::Finished));
    match action {
        SubscribeAction::Respond(Err(SubscribeError::ValidationError(message))) => {
            assert_eq!("<le guin> is not a valid subscriber name.", message);
            assert_eq!(400, SubscribeError::ValidationError(message).status_code());
        }
        _ => panic!("the form was not rejected"),
    }
}

#[test]
fn the_token_that_is_stored_is_the_token_of_the_link() {
    let request = SubscribeEvent::Request {
        form: FormData { email: "ursula_le_guin@gmail.com".to_string(), name: "le guin".to_string() },
        base_url: ApplicationBaseUrl("https://newsletter.example.com".to_string()),
    };
    let (state, action) = subscribe(SubscribeState::Idle, request);
    assert!(matches!(action, SubscribeAction::BeginTransaction));

    let (state, action) = subscribe(state, SubscribeEvent::Done(Ok(())));
    let inserted = match action {
        SubscribeAction::InsertSubscriber(subscriber) => subscriber,
        _ => panic!("the subscriber was not stored"),
    };
    assert_eq!(SubscriberStatus::Pending, inserted.status);

    let (state, action) = subscribe(state, SubscribeEvent::Done(Ok(())));
    let token = match action {
        SubscribeAction::StoreToken { subscription_token, subscriber_id } => {
            assert_eq!(inserted.id, subscriber_id);
            subscription_token
        }
        _ => panic!("the token was not stored"),
    };
    assert_eq!(25, token.len());
    assert!(token.bytes().all(|byte| byte.is_ascii_alphanumeric()));

    let (state, action) = subscribe(state, SubscribeEvent::Done(Ok(())));
    assert!(matches!(action, SubscribeAction::Commit));

    let (state, action) = subscribe(state, SubscribeEvent::Done(Ok(())));
    let email = match action {
        SubscribeAction::SendEmail(email) => email,
        _ => panic!("the email was not dispatched"),
    };
    let link =
        format!("https://newsletter.example.com/subscriptions/confirm?subscription_token={}", token);
    assert!(email.html_content.contains(&link));
    assert!(email.text_content.contains(&link));
    assert_eq!("ursula_le_guin@gmail.com", email.recipient.as_ref());

    let (state, action) = subscribe(state, SubscribeEvent::Done(Ok(())));
    assert!(matches!(state, SubscribeState::Finished));
    assert!(matches!(action, SubscribeAction::Respond(Ok(()))));
}

#[test]
fn a_token_that_cannot_be_looked_up_is_a_500() {
    let parameters = Parameters { subscription_token: "token".to_string() };
    let (state, action) = confirm(ConfirmState::Idle, ConfirmEvent::Request(parameters));
    assert_eq!(ConfirmState::LookingUp, state);
    match action {
        ConfirmAction::FindSubscriber { subscription_token } => {
            assert_eq!("token", subscription_token)
        }
        _ => panic!("the confirmation did not ask for the subscriber"),
    }

    let (state, action) = confirm(state, ConfirmEvent::Found(Err(Unavailable)));

    assert_eq!(ConfirmState::Finished, state);
    match action {
        ConfirmAction::Respond(response) => {
            assert_eq!(Err(ConfirmError::UnexpectedError(ConfirmFault::TokenLookup)), response);
            assert_eq!(500, confirm_status(&response));
        }
        _ => panic!("the confirmation did not answer"),
    }
}

#[test]
fn a_token_that_is_bound_to_nobody_is_a_401() {
    let (state, action) = confirm(ConfirmState::LookingUp, ConfirmEvent::Found(Ok(None)));

    assert_eq!(ConfirmState::Finished, state);
    match action {
        ConfirmAction::Respond(response) => {
            assert_eq!(Err(ConfirmError::AuthError), response);
            assert_eq!(401, confirm_status(&response));
            assert_eq!(401, ConfirmError::AuthError.status_code());
        }
        _ => panic!("the confirmation did not answer"),
    }
}

#[test]
fn requests_that_lack_a_field_are_answered_with_400() {
    assert_eq!(400, zero2prod::routes::MalformedRequest.status_code());
    assert_eq!(200, zero2prod::routes::OK);
    assert_eq!(
        Err(zero2prod::routes::MalformedRequest),
        Parameters::from_fields(None).map(|parameters| parameters.subscription_token)
    );
    assert_eq!(
        Ok("token".to_string()),
        Parameters::from_fields(Some("token".to_string()))
            .map(|parameters| parameters.subscription_token)
    );
}
