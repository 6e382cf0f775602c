use zero2prod::domain::SubscriberEmail;
use zero2prod::domain::SubscriberName;
use zero2prod::domain::NewSubscriber;
use zero2prod::email_client::EmailClient;
use zero2prod::email_client::EmailRequest;
use zero2prod::email_client::NotificationError;
use zero2prod::email_client::ProviderReply;
use zero2prod::routes::subscriptions::Outcome;
use zero2prod::routes::subscriptions::PersistenceError;
use zero2prod::routes::subscriptions::Registration;
use zero2prod::routes::subscriptions::RegistrationAction;
use zero2prod::routes::subscriptions::RegistrationEvent;
use zero2prod::routes::subscriptions::SubscriptionRecord;
use zero2prod::routes::subscriptions::SubscriptionStatus;
use zero2prod::routes::subscriptions::Timestamp;
use zero2prod::routes::subscriptions::WELCOME;
use zero2prod::routes::SubscriptionsData;

/// A backend made of a store and an e-mail provider, each of which works
/// or does not.
struct TestApp {
    store_is_up: bool,
    provider: ProviderReply,
    email_client: EmailClient,
    saved: Vec<SubscriptionRecord>,
    received: Vec<EmailRequest>,
}

fn spawn_app() -> TestApp {
    TestApp {
        store_is_up: true,
        provider: ProviderReply::Status(200),
        email_client: EmailClient::new(
            "http://127.0.0.1:34567".to_string(),
            SubscriberEmail::parse("newsletter@example.com".to_string()).unwrap(),
            std::time::Duration::from_secs(10),
        ),
        saved: Vec::new(),
        received: Vec::new(),
    }
}

fn form_of(body: &str) -> Option<SubscriptionsData> {
    let fields: Vec<(String, String)> = serde_urlencoded::from_str(body).unwrap();
    let name = fields.iter().find(|(key, _)| key == "name").map(|(_, value)| value.clone());
    let email = fields.iter().find(|(key, _)| key == "email").map(|(_, value)| value.clone());
    SubscriptionsData::from_fields(name, email)
}

impl TestApp {
    fn perform(&mut self, action: RegistrationAction) -> Result<RegistrationEvent, Outcome> {
        match action {
            RegistrationAction::Persist { subscriber } => {
                if self.store_is_up {
                    self.saved.push(SubscriptionRecord::new(&subscriber));
                    Ok(RegistrationEvent::Saved(Ok(())))
                } else {
                    Ok(RegistrationEvent::Saved(Err(PersistenceError)))
                }
            }
            RegistrationAction::Notify { message } => {
                self.received.push(self.email_client.request(message));
                Ok(RegistrationEvent::Sent(EmailClient::outcome(self.provider)))
            }
            RegistrationAction::Respond { outcome } => Err(outcome),
        }
    }

    fn post_subscriptions(&mut self, body: &str) -> u16 {
        let (mut state, mut action) = Registration::begin(form_of(body));
        loop {
            match self.perform(action) {
                Ok(event) => {
                    let (next, then) = state.step(event);
                    state = next;
                    action = then;
                }
                Err(outcome) => {
                    assert_eq!(state.outcome(), Some(outcome));
                    return outcome.status();
                }
            }
        }
    }
}

#[test]
fn subscriptions_subscribe_returns_a_200_for_valid_form_data() {
    let mut app = spawn_app();
    let body = "name=le%20guin&email=ursula_le_guin%40gmail.com";

    let status = app.post_subscriptions(body);

    assert_eq!(status, 200)
}

#[test]
fn health_check_subscribe_returns_a_200_for_valid_form_data() {
    let mut app = spawn_app();
    let body = "name=le%20guin&email=ursula_le_guin%40gmail.com";

    let status = app.post_subscriptions(body);

    assert_eq!(200, status);
    assert_eq!(app.saved.len(), 1);
    let subscriber = &app.saved[0];
    assert_eq!(subscriber.name, "le guin");
    assert_eq!(subscriber.email, "ursula_le_guin@gmail.com");
    assert_eq!(subscriber.status, SubscriptionStatus::Confirmed);
    assert_eq!(subscriber.status.as_str(), "confirmed");
}

#[test]
fn subscriptions_subscribe_returns_a_400_when_data_is_missing() {
    let test_cases = vec![
        ("name=le%20guin", "missing the email"),
        ("email=ursula_le_guin%40gmail.com", "missing the name"),
        ("", "missing both name and email"),
    ];

    for (invalid_body, error_message) in test_cases {
        let mut app = spawn_app();
        let status = app.post_subscriptions(invalid_body);
        assert_eq!(
            400, status,
            "The API did not fail with 400 Bad Request when the payload was {}.",
            error_message
        );
    }
}

#[test]
fn health_check_subscribe_returns_a_400_when_data_is_missing() {
    let test_cases = vec![
        ("name=le%20guin", "missing the email"),
        ("email=ursula_le_guin%40gmail.com", "missing the name"),
        ("", "missing both name and email"),
    ];

    for (invalid_body, error_message) in test_cases {
        let mut app = spawn_app();
        let status = app.post_subscriptions(invalid_body);
        assert_eq!(
            400, status,
            "The API did not fail with 400 Bad Request when the payload was {}.",
            error_message
        );
        // nothing was stored and the e-mail provider was never called
        assert!(app.saved.is_empty());
        assert!(app.received.is_empty());
    }
}

#[test]
fn subscribe_returns_a_200_when_fields_are_present_but_empty() {
    let test_cases = vec![
        ("name=&email=ursula_le_guin%40gmail.com", "empty name", 400),
        ("name=Ursula&email=", "empty email", 400),
        ("name=Ursula&email=definitely-not-an-email", "invalid email", 400),
    ];
    for (body, description, code) in test_cases {
        let mut app = spawn_app();
        let status = app.post_subscriptions(body);
        assert_eq!(
            code, status,
            "The API should not return {} when the payload was {}.",
            status, description
        );
        assert!(app.saved.is_empty());
        assert!(app.received.is_empty());
    }
}

#[test]
fn subscribe_sends_a_confirmation_email_for_valid_data() {
    let mut app = spawn_app();
    let body = "name=le%20guin&email=ursula_le_guin%40gmail.com";

    app.post_subscriptions(body);

    assert_eq!(app.received.len(), 1);
    assert_eq!(app.received[0].method(), "POST");
    assert_eq!(app.received[0].url, "http://127.0.0.1:34567/email");
    assert_eq!(app.received[0].recipient, "ursula_le_guin@gmail.com");
    assert_eq!(app.received[0].sender, "newsletter@example.com");
    assert_eq!(app.received[0].subject, "Welcome to our newsletter!");
    assert_eq!(app.received[0].text_body, "Welcome to our newsletter!");
    assert_eq!(app.received[0].html_body, "Welcome to our newsletter!");
    assert_eq!(WELCOME, "Welcome to our newsletter!");
}

#[test]
fn subscribe_returns_a_500_when_the_provider_fails_and_keeps_the_record() {
    let mut app = spawn_app();
    app.provider = ProviderReply::Status(500);
    let body = "name=le%20guin&email=ursula_le_guin%40gmail.com";

    let status = app.post_subscriptions(body);

    assert_eq!(status, 500);
    assert_eq!(app.received.len(), 1);
    assert_eq!(app.saved.len(), 1);
    assert_eq!(app.saved[0].name, "le guin");
    assert_eq!(app.saved[0].email, "ursula_le_guin@gmail.com");
    assert_eq!(app.saved[0].status, SubscriptionStatus::Confirmed);
}

#[test]
fn subscribe_returns_a_500_when_the_provider_times_out() {
    let mut app = spawn_app();
    app.provider = ProviderReply::TimedOut;
    let status = app.post_subscriptions("name=le%20guin&email=ursula_le_guin%40gmail.com");
    assert_eq!(status, 500);
    assert_eq!(app.saved.len(), 1);
    assert_eq!(app.received.len(), 1);
}

#[test]
fn subscribe_returns_a_500_when_the_store_fails_and_sends_nothing() {
    let mut app = spawn_app();
    app.store_is_up = false;
    let status = app.post_subscriptions("name=le%20guin&email=ursula_le_guin%40gmail.com");
    assert_eq!(status, 500);
    assert!(app.saved.is_empty());
    assert!(app.received.is_empty());
}

#[test]
fn subscribe_stores_the_same_email_twice() {
    let mut app = spawn_app();
    let body = "name=le%20guin&email=ursula_le_guin%40gmail.com";
    assert_eq!(app.post_subscriptions(body), 200);
    assert_eq!(app.post_subscriptions(body), 200);
    assert_eq!(app.saved.len(), 2);
    assert_eq!(app.received.len(), 2);
}

#[test]
fn subscribe_rejects_a_name_with_a_forbidden_character() {
    let mut app = spawn_app();
    let status = app.post_subscriptions("name=le%2Fguin&email=ursula_le_guin%40gmail.com");
    assert_eq!(status, 400);
    assert!(app.saved.is_empty());
    assert!(app.received.is_empty());
}

#[test]
fn two_registrations_do_not_interfere() {
    let first = "name=le%20guin&email=ursula_le_guin%40gmail.com";
    let second = "name=Octavia%20Butler&email=octavia%40example.com";

    // each alone: the first finds the provider failing, the second does not
    let alone_first = {
        let (state, _) = Registration::begin(form_of(first));
        let (state, _) = state.step(RegistrationEvent::Saved(Ok(())));
        let (state, _) = state.step(RegistrationEvent::Sent(Err(NotificationError::Status(500))));
        state
    };
    let alone_second = {
        let (state, _) = Registration::begin(form_of(second));
        let (state, _) = state.step(RegistrationEvent::Saved(Ok(())));
        let (state, _) = state.step(RegistrationEvent::Sent(Ok(())));
        state
    };
    assert_eq!(alone_first.outcome(), Some(Outcome::Failed));
    assert_eq!(alone_second.outcome(), Some(Outcome::Accepted));

    // interleaved
    let (a, a_first) = Registration::begin(form_of(first));
    let (b, b_first) = Registration::begin(form_of(second));
    assert!(matches!(a_first, RegistrationAction::Persist { .. }));
    assert!(matches!(b_first, RegistrationAction::Persist { .. }));
    let (b, b_then) = b.step(RegistrationEvent::Saved(Ok(())));
    let (a, a_then) = a.step(RegistrationEvent::Saved(Ok(())));
    match (a_then, b_then) {
        (
            RegistrationAction::Notify { message: to_a },
            RegistrationAction::Notify { message: to_b },
        ) => {
            assert_eq!(to_a.recipient.as_ref(), "ursula_le_guin@gmail.com");
            assert_eq!(to_b.recipient.as_ref(), "octavia@example.com");
        }
        other => panic!("both should be notified, got {:?}", other),
    }
    let (a, _) = a.step(RegistrationEvent::Sent(Err(NotificationError::Status(500))));
    let (b, _) = b.step(RegistrationEvent::Sent(Ok(())));
    assert_eq!(a, alone_first);
    assert_eq!(b, alone_second);
}

#[test]
fn an_answered_request_stays_answered() {
    let (state, action) = Registration::begin(form_of("name=le%20guin"));
    assert_eq!(state, Registration::Done { outcome: Outcome::Rejected });
    assert_eq!(action, RegistrationAction::Respond { outcome: Outcome::Rejected });
    let (state, action) = state.step(RegistrationEvent::Saved(Ok(())));
    assert_eq!(state, Registration::Done { outcome: Outcome::Rejected });
    assert_eq!(action, RegistrationAction::Respond { outcome: Outcome::Rejected });
    let (state, action) = state.step(RegistrationEvent::Sent(Ok(())));
    assert_eq!(state, Registration::Done { outcome: Outcome::Rejected });
    assert_eq!(action, RegistrationAction::Respond { outcome: Outcome::Rejected });
}

#[test]
fn an_answer_out_of_turn_fails_the_registration() {
    let body = "name=le%20guin&email=ursula_le_guin%40gmail.com";
    let (state, _) = Registration::begin(form_of(body));
    let (state, action) = state.step(RegistrationEvent::Sent(Ok(())));
    assert_eq!(state, Registration::Done { outcome: Outcome::Failed });
    assert_eq!(action, RegistrationAction::Respond { outcome: Outcome::Failed });

    let (state, _) = Registration::begin(form_of(body));
    let (state, _) = state.step(RegistrationEvent::Saved(Ok(())));
    assert_eq!(state, Registration::Notifying);
    assert_eq!(state.outcome(), None);
    let (state, action) = state.step(RegistrationEvent::Saved(Ok(())));
    assert_eq!(state, Registration::Done { outcome: Outcome::Failed });
    assert_eq!(action, RegistrationAction::Respond { outcome: Outcome::Failed });
}

#[test]
fn a_registration_goes_on_from_the_validation() {
    let (state, action) = Registration::from_validation(Err(zero2prod::domain::ValidationError));
    assert_eq!(state, Registration::Done { outcome: Outcome::Rejected });
    assert_eq!(action, RegistrationAction::Respond { outcome: Outcome::Rejected });

    let subscriber = NewSubscriber {
        name: SubscriberName::parse("le guin".to_string()).unwrap(),
        email: SubscriberEmail::parse("ursula_le_guin@gmail.com".to_string()).unwrap(),
    };
    let (state, action) = Registration::from_validation(Ok(subscriber.clone()));
    assert_eq!(
        state,
        Registration::Persisting { recipient: subscriber.email.clone() }
    );
    assert_eq!(action, RegistrationAction::Persist { subscriber });
    assert_eq!(state.outcome(), None);
}

#[test]
fn outcomes_have_their_status_codes() {
    assert_eq!(Outcome::Accepted.status(), 200);
    assert_eq!(Outcome::Rejected.status(), 400);
    assert_eq!(Outcome::Failed.status(), 500);
}

#[test]
fn a_form_is_there_only_with_both_fields() {
    let name = || Some("le guin".to_string());
    let email = || Some("ursula_le_guin@gmail.com".to_string());
    let form = SubscriptionsData::from_fields(name(), email()).unwrap();
    assert_eq!(form.name(), "le guin");
    assert_eq!(form.email(), "ursula_le_guin@gmail.com");
    assert_eq!(form, SubscriptionsData::new(name().unwrap(), email().unwrap()));
    assert_eq!(SubscriptionsData::from_fields(name(), None), None);
    assert_eq!(SubscriptionsData::from_fields(None, email()), None);
    assert_eq!(SubscriptionsData::from_fields(None, None), None);
}

#[test]
fn a_form_turns_into_a_subscriber_when_both_fields_are_valid() {
    let form = SubscriptionsData::new(" le guin ".to_string(), "ursula_le_guin@gmail.com".to_string());
    let subscriber = form.try_into().unwrap();
    assert_eq!(subscriber.name.as_ref(), "le guin");
    assert_eq!(subscriber.email.as_ref(), "ursula_le_guin@gmail.com");

    let form = SubscriptionsData::new("le guin".to_string(), "not-an-email".to_string());
    assert!(form.try_into().is_err());
    let form = SubscriptionsData::new("{le guin}".to_string(), "ursula_le_guin@gmail.com".to_string());
    assert!(form.try_into().is_err());
    let form = SubscriptionsData::new(String::new(), String::new());
    assert!(form.try_into().is_err());
}

#[test]
fn a_record_holds_the_subscriber_the_time_and_the_status() {
    let subscriber = NewSubscriber {
        name: SubscriberName::parse("le guin".to_string()).unwrap(),
        email: SubscriberEmail::parse("ursula_le_guin@gmail.com".to_string()).unwrap(),
    };
    let at = Timestamp { seconds: 1_431_648_000, nanoseconds: 250_000_000 };
    let record = SubscriptionRecord::at(&subscriber, at);
    assert_eq!(
        record,
        SubscriptionRecord {
            email: "ursula_le_guin@gmail.com".to_string(),
            name: "le guin".to_string(),
            subscribed_at: at,
            status: SubscriptionStatus::Confirmed,
        }
    );
    assert_eq!(record.clone(), record);
}

#[test]
fn a_record_is_stamped_with_the_time_of_writing() {
    let subscriber = NewSubscriber {
        name: SubscriberName::parse("le guin".to_string()).unwrap(),
        email: SubscriberEmail::parse("ursula_le_guin@gmail.com".to_string()).unwrap(),
    };
    let before = std::time::SystemTime::now()
        .duration_since(std::time::UNIX_EPOCH)
        .unwrap()
        .as_secs() as i64;
    let record = SubscriptionRecord::new(&subscriber);
    let after = std::time::SystemTime::now()
        .duration_since(std::time::UNIX_EPOCH)
        .unwrap()
        .as_secs() as i64;
    assert!(before <= record.subscribed_at.seconds);
    assert!(record.subscribed_at.seconds <= after);
    assert!(record.subscribed_at.nanoseconds < 2_000_000_000);
    assert_eq!(record.name, "le guin");
    assert_eq!(record.email, "ursula_le_guin@gmail.com");
    assert_eq!(record.status, SubscriptionStatus::Confirmed);
}
