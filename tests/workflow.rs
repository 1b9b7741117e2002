use zero2prod::domain::SubscriberEmail;
use zero2prod::store::{SubscriptionStatus, SubscriptionStore};
use zero2prod::subscriptions::{
    build_confirmation_email, confirmation_link, ConfirmationEmail, SubscribeAction,
    SubscribeEvent, SubscribeFlow, SubscribeFormData, SubscribeOutcome, SubscribePhase,
    SubscriberError,
};
use zero2prod::domain::NewSubscriber;
use zero2prod::subscriptions_confirm::{
    ConfirmAction, ConfirmEvent, ConfirmFlow, ConfirmOutcome, ConfirmPhase, Parameters,
};

const BASE_URL: &str = "http://127.0.0.1:8000";

/// What the email provider does with a message.
#[derive(Clone, Copy, PartialEq)]
enum Provider {
    Accepts,
    Rejects,
}

fn form(name: Option<&str>, email: Option<&str>) -> Option<SubscribeFormData> {
    match (name, email) {
        (Some(n), Some(e)) => Some(SubscribeFormData { name: n.to_string(), email: e.to_string() }),
        _ => None,
    }
}

/// Runs one subscription against the store, recording each message handed
/// to the provider.
fn subscribe(
    store: &mut SubscriptionStore,
    outbox: &mut Vec<ConfirmationEmail>,
    form_data: Option<SubscribeFormData>,
    provider: Provider,
) -> (SubscribeFlow, SubscribeOutcome) {
    let (mut flow, mut action) = SubscribeFlow::start(form_data, BASE_URL.to_string());
    loop {
        action = match action {
            SubscribeAction::InsertSubscriber => {
                let s = flow.new_subscriber.as_ref().unwrap();
                let event = match store.insert_subscriber(s) {
                    Ok(id) => SubscribeEvent::SubscriberInserted(id),
                    Err(_) => SubscribeEvent::StorageFailed,
                };
                flow.advance(event)
            }
            SubscribeAction::StoreToken { subscriber_id, token } => {
                let event = match store.store_token(subscriber_id, &token) {
                    Ok(()) => SubscribeEvent::TokenStored,
                    Err(_) => SubscribeEvent::StorageFailed,
                };
                flow.advance(event)
            }
            SubscribeAction::SendEmail(message) => {
                outbox.push(message);
                flow.advance(match provider {
                    Provider::Accepts => SubscribeEvent::EmailSent,
                    Provider::Rejects => SubscribeEvent::DispatchFailed,
                })
            }
            SubscribeAction::Respond(outcome) => return (flow, outcome),
        }
    }
}

fn valid_form() -> Option<SubscribeFormData> {
    form(Some("le guin"), Some("ursula_le_guin@gmail.com"))
}

/// The single link in a text, from `http` to the next space or quote.
fn link_in(text: &str) -> String {
    let start = text.find("http").expect("a link");
    assert!(text[start + 4..].find("http").is_none(), "exactly one link");
    text[start..]
        .split(|c: char| c == ' ' || c == '"')
        .next()
        .unwrap()
        .to_string()
}

fn token_of(link: &str) -> String {
    link.split("subscription_token=").nth(1).expect("a token").to_string()
}

#[test]
fn subscriptions_subscribe_returns_200_for_valid_form_data() {
    let mut store = SubscriptionStore::new();
    let mut outbox = Vec::new();
    let (_, outcome) = subscribe(&mut store, &mut outbox, valid_form(), Provider::Accepts);
    assert_eq!(outcome, SubscribeOutcome::Accepted);
    assert_eq!(outcome.status_code(), 200);
}

#[test]
fn subscribe_persists_the_new_subscriber() {
    let mut store = SubscriptionStore::new();
    let mut outbox = Vec::new();
    let (flow, outcome) = subscribe(&mut store, &mut outbox, valid_form(), Provider::Accepts);
    assert_eq!(outcome.status_code(), 200);
    let saved = &store.subscribers()[0];
    assert_eq!(store.subscribers().len(), 1);
    assert_eq!(saved.email, "ursula_le_guin@gmail.com");
    assert_eq!(saved.name, "le guin");
    assert_eq!(saved.status.as_str(), "pending_confirmation");
    assert_eq!(Some(saved.id), flow.subscriber_id);
    assert!(saved.subscribed_at > 1_600_000_000);
    assert_eq!(outbox.len(), 1);
}

#[test]
fn subscriptions_subscribe_returns_422_when_data_missing() {
    let test_cases = vec![
        (form(Some("le guin"), None), "missing the email"),
        (form(None, Some("ursula_le_guin@gmail.com")), "missing the name"),
        (form(None, None), "missing both name and email"),
    ];
    for (invalid_form, error_message) in test_cases {
        let mut store = SubscriptionStore::new();
        let mut outbox = Vec::new();
        let (_, outcome) = subscribe(&mut store, &mut outbox, invalid_form, Provider::Accepts);
        assert_eq!(
            outcome.status_code(),
            422,
            "The API did not fail with 422 Unprocessable Entity when the payload was {}",
            error_message
        );
        assert!(store.is_empty());
        assert!(outbox.is_empty());
    }
}

#[test]
fn subscriptions_subscribe_returns_400_for_present_invalid_fields() {
    let test_cases = vec![
        (form(Some(""), Some("ursula_le_guin@gmail.com")), "empty name"),
        (form(Some("Ursula"), Some("")), "empty email"),
        (form(Some("Ursula"), Some("definitely-not-an-email")), "invalid email"),
    ];
    for (body, description) in test_cases {
        let mut store = SubscriptionStore::new();
        let mut outbox = Vec::new();
        let (_, outcome) = subscribe(&mut store, &mut outbox, body, Provider::Accepts);
        assert_eq!(
            outcome.status_code(),
            400,
            "The API did not return a 400 Bad Request when the payload was {}.",
            description
        );
        assert!(store.is_empty());
        assert!(outbox.is_empty());
    }
}

#[test]
fn subscribe_sends_confirmation_email_for_valid_data() {
    let mut store = SubscriptionStore::new();
    let mut outbox = Vec::new();
    subscribe(&mut store, &mut outbox, valid_form(), Provider::Accepts);
    assert_eq!(outbox.len(), 1);
    assert_eq!(outbox[0].recipient, "ursula_le_guin@gmail.com");
    assert_eq!(outbox[0].subject, "Welcome!");
}

#[test]
fn subscribe_sends_confirmation_email_with_link() {
    let mut store = SubscriptionStore::new();
    let mut outbox = Vec::new();
    let (flow, _) = subscribe(&mut store, &mut outbox, valid_form(), Provider::Accepts);
    let html_link = link_in(&outbox[0].html_body);
    let text_link = link_in(&outbox[0].text_body);
    assert_eq!(html_link, text_link);
    let token = flow.token.unwrap();
    assert_eq!(
        html_link,
        format!("http://127.0.0.1:8000/subscriptions/confirm?subscription_token={}", token)
    );
}

#[test]
fn confirmations_without_token_are_rejected_with_400() {
    let mut store = SubscriptionStore::new();
    let outcome = store.confirm(None);
    assert_eq!(outcome, ConfirmOutcome::BadRequest);
    assert_eq!(outcome.status_code(), 400);
}

#[test]
fn link_returned_by_subscribe_returns_200_if_called() {
    let mut store = SubscriptionStore::new();
    let mut outbox = Vec::new();
    subscribe(&mut store, &mut outbox, valid_form(), Provider::Accepts);
    let link = link_in(&outbox[0].html_body);
    let outcome = store.confirm(Some(Parameters { subscription_token: token_of(&link) }));
    assert_eq!(outcome.status_code(), 200);
}

#[test]
fn clicking_confirmation_link_confirms_subscriber() {
    let mut store = SubscriptionStore::new();
    let mut outbox = Vec::new();
    subscribe(&mut store, &mut outbox, valid_form(), Provider::Accepts);
    let link = link_in(&outbox[0].html_body);
    println!("HTML Link: {:?}", link);
    let subscribed_at = store.subscribers()[0].subscribed_at;
    let outcome = store.confirm(Some(Parameters { subscription_token: token_of(&link) }));
    assert_eq!(outcome, ConfirmOutcome::Confirmed);
    let saved = &store.subscribers()[0];
    assert_eq!(saved.email, "ursula_le_guin@gmail.com");
    assert_eq!(saved.name, "le guin");
    assert_eq!(saved.status.as_str(), "confirmed");
    assert_eq!(saved.subscribed_at, subscribed_at);
}

#[test]
fn confirming_twice_confirms_both_times() {
    let mut store = SubscriptionStore::new();
    let mut outbox = Vec::new();
    let (flow, _) = subscribe(&mut store, &mut outbox, valid_form(), Provider::Accepts);
    let token = flow.token.unwrap();
    for _ in 0..2 {
        let outcome = store.confirm(Some(Parameters { subscription_token: token.clone() }));
        assert_eq!(outcome, ConfirmOutcome::Confirmed);
        assert_eq!(store.subscribers()[0].status, SubscriptionStatus::Confirmed);
    }
}

#[test]
fn unknown_tokens_are_rejected_with_400() {
    let mut store = SubscriptionStore::new();
    let mut outbox = Vec::new();
    subscribe(&mut store, &mut outbox, valid_form(), Provider::Accepts);
    let outcome = store.confirm(Some(Parameters { subscription_token: "nope".to_string() }));
    assert_eq!(outcome, ConfirmOutcome::BadRequest);
    assert_eq!(store.subscribers()[0].status, SubscriptionStatus::PendingConfirmation);
}

#[test]
fn each_submission_gets_its_own_token_for_the_same_subscriber() {
    let mut store = SubscriptionStore::new();
    let s = NewSubscriber::try_from(valid_form().unwrap()).ok().unwrap();
    let id = store.insert_subscriber(&s).unwrap();
    store.store_token(id, "firsttoken").unwrap();
    store.store_token(id, "secondtoken").unwrap();
    assert_eq!(store.find_subscriber_id_by_token("firsttoken"), Some(id));
    assert_eq!(store.find_subscriber_id_by_token("secondtoken"), Some(id));
    assert_eq!(store.find_subscriber_id_by_token("third"), None);
    assert!(store.store_token(id, "firsttoken").is_err());
}

#[test]
fn a_failed_email_leaves_the_subscriber_pending_with_a_token() {
    let mut store = SubscriptionStore::new();
    let mut outbox = Vec::new();
    let (flow, outcome) = subscribe(&mut store, &mut outbox, valid_form(), Provider::Rejects);
    assert_eq!(outcome, SubscribeOutcome::ServerError);
    assert_eq!(outcome.status_code(), 500);
    assert_eq!(flow.phase, SubscribePhase::Failed(SubscribeOutcome::ServerError));
    assert_eq!(store.subscribers().len(), 1);
    assert_eq!(store.subscribers()[0].status, SubscriptionStatus::PendingConfirmation);
    let token = flow.token.unwrap();
    assert_eq!(store.find_subscriber_id_by_token(&token), flow.subscriber_id);
}

#[test]
fn a_second_submission_with_the_same_email_is_a_server_error() {
    let mut store = SubscriptionStore::new();
    let mut outbox = Vec::new();
    subscribe(&mut store, &mut outbox, valid_form(), Provider::Accepts);
    let (flow, outcome) = subscribe(&mut store, &mut outbox, valid_form(), Provider::Accepts);
    assert_eq!(outcome, SubscribeOutcome::ServerError);
    assert_eq!(flow.subscriber_id, None);
    assert_eq!(store.subscribers().len(), 1);
    assert_eq!(outbox.len(), 1);
}

#[test]
fn a_token_that_cannot_be_stored_stops_the_attempt() {
    let (mut flow, action) = SubscribeFlow::start(valid_form(), BASE_URL.to_string());
    assert!(matches!(action, SubscribeAction::InsertSubscriber));
    let mut store = SubscriptionStore::new();
    let id = store.insert_subscriber(flow.new_subscriber.as_ref().unwrap()).unwrap();
    assert!(matches!(flow.advance(SubscribeEvent::SubscriberInserted(id)), SubscribeAction::StoreToken { .. }));
    let action = flow.advance(SubscribeEvent::StorageFailed);
    assert!(matches!(action, SubscribeAction::Respond(SubscribeOutcome::ServerError)));
    // A finished attempt repeats its answer.
    let again = flow.advance(SubscribeEvent::EmailSent);
    assert!(matches!(again, SubscribeAction::Respond(SubscribeOutcome::ServerError)));
}

#[test]
fn an_event_out_of_order_ends_the_attempt() {
    let (mut flow, _) = SubscribeFlow::start(valid_form(), BASE_URL.to_string());
    let action = flow.advance(SubscribeEvent::EmailSent);
    assert!(matches!(action, SubscribeAction::Respond(SubscribeOutcome::ServerError)));
    assert_eq!(flow.phase, SubscribePhase::Failed(SubscribeOutcome::ServerError));
}

#[test]
fn an_unusable_base_url_is_a_server_error() {
    let (mut flow, _) = SubscribeFlow::start(valid_form(), "not a url".to_string());
    let mut store = SubscriptionStore::new();
    let id = store.insert_subscriber(flow.new_subscriber.as_ref().unwrap()).unwrap();
    flow.advance(SubscribeEvent::SubscriberInserted(id));
    let action = flow.advance(SubscribeEvent::TokenStored);
    assert!(matches!(action, SubscribeAction::Respond(SubscribeOutcome::ServerError)));
}

#[test]
fn confirmation_link_joins_the_base_url() {
    assert_eq!(
        confirmation_link("http://127.0.0.1:8000", "abc").unwrap(),
        "http://127.0.0.1:8000/subscriptions/confirm?subscription_token=abc"
    );
    assert_eq!(
        confirmation_link("https://example.com/app/", "abc").unwrap(),
        "https://example.com/app/subscriptions/confirm?subscription_token=abc"
    );
    assert!(confirmation_link("relative/path", "abc").is_none());
}

#[test]
fn confirmation_email_has_both_bodies() {
    let s = NewSubscriber::try_from(valid_form().unwrap()).ok().unwrap();
    let e = build_confirmation_email(&s, BASE_URL, "tok").unwrap();
    let link = "http://127.0.0.1:8000/subscriptions/confirm?subscription_token=tok";
    assert_eq!(e.recipient, "ursula_le_guin@gmail.com");
    assert_eq!(
        e.html_body,
        format!("Welcome to our newsletter!<br />Click <a href=\"{}\">here</a> to confirm your subscription.", link)
    );
    assert_eq!(
        e.text_body,
        format!("Welcome to our newsletter!\nVisit {} to confirm your subscription.", link)
    );
    let email = SubscriberEmail::parse("ursula_le_guin@gmail.com".to_string()).unwrap();
    assert_eq!(email.as_str(), e.recipient);
}

#[test]
fn form_errors_name_the_field() {
    let e = NewSubscriber::try_from(form(Some("a/b"), Some("x@y.com")).unwrap()).err().unwrap();
    assert_eq!(e.message(), "Invalid name: a/b is not a valid subscriber name.");
    let e = NewSubscriber::try_from(form(Some("Ursula"), Some("nope")).unwrap()).err().unwrap();
    assert!(matches!(e, SubscriberError::InvalidEmail(_)));
    assert_eq!(e.message(), "Invalid email: nope is not a valid email address.");
}

#[test]
fn confirm_flow_reports_storage_failures() {
    let (mut flow, action) = ConfirmFlow::start(Some(Parameters { subscription_token: "t".to_string() }));
    assert!(matches!(action, ConfirmAction::FindSubscriber(ref t) if t == "t"));
    let action = flow.advance(ConfirmEvent::StorageFailed);
    assert!(matches!(action, ConfirmAction::Respond(ConfirmOutcome::ServerError)));
    assert_eq!(flow.phase, ConfirmPhase::Failed(ConfirmOutcome::ServerError));
    assert_eq!(ConfirmOutcome::ServerError.status_code(), 500);
}

#[test]
fn subscriber_ids_are_random() {
    let mut store = SubscriptionStore::new();
    let a = NewSubscriber::try_from(form(Some("A"), Some("a@x.com")).unwrap()).ok().unwrap();
    let b = NewSubscriber::try_from(form(Some("B"), Some("b@x.com")).unwrap()).ok().unwrap();
    let ia = store.insert_subscriber(&a).unwrap();
    let ib = store.insert_subscriber(&b).unwrap();
    assert_ne!(ia, ib);
    assert_ne!(ia.0, 0);
}
