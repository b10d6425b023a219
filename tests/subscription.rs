use mailmule::email::EmailAdderess;
use mailmule::store::{StoreError, SubscriberStore};
use mailmule::subscribe::{
    apply_subscribe, confirmation_email, confirmation_link, execute_subscribe,
    execute_subscribe_fresh, plan_subscribe, subscribe, subscription_token, ServiceError,
    SubscribeOutcome, SubscribePlan, SubscribeReply, SubscriberName, SubscriptionForm,
    SubscriptionStatus, subscribe_confirm, SUBSCRIPTION_TOKEN_LEN,
};
use mailmule::ValidationError;

const ENDPOINT: &str = "http://127.0.0.1:8000/subscribe/confirm";

fn subscribe_fresh(store: &mut SubscriberStore, name: &str, email: &str) -> SubscribeReply {
    let form = SubscriptionForm::new(name.into(), email.into()).unwrap();
    let plan = plan_subscribe(store, &form);
    execute_subscribe_fresh(store, plan, &form, ENDPOINT).unwrap()
}

fn is_token(t: &str) -> bool {
    t.len() == 26 && t.chars().all(|c| c.is_ascii_alphanumeric())
}

#[test]
fn tokens_are_26_letters_and_digits() {
    let a = subscription_token(SUBSCRIPTION_TOKEN_LEN);
    let b = subscription_token(SUBSCRIPTION_TOKEN_LEN);
    assert!(is_token(&a));
    assert!(is_token(&b));
    assert_ne!(a, b);
    assert_eq!(subscription_token(0), "");
}

#[test]
fn link_carries_the_token_as_query() {
    assert_eq!(
        confirmation_link(ENDPOINT, "abc").unwrap(),
        "http://127.0.0.1:8000/subscribe/confirm?token=abc"
    );
    assert_eq!(
        confirmation_link("http://example.com/confirm?token=old", "new").unwrap(),
        "http://example.com/confirm?token=new"
    );
    assert!(confirmation_link("not a url", "abc").is_none());
}

#[test]
fn confirmation_email_text() {
    let to = EmailAdderess::new("ursula@example.com".to_string()).unwrap();
    let c = confirmation_email(&to, "tok", "http://x/confirm?token=tok");
    assert_eq!(c.to.as_str(), "ursula@example.com");
    assert_eq!(c.subject, "Newsletter subscription confirmation");
    assert_eq!(
        c.text_body,
        "Open the link to confirm your newsletter subscription. http://x/confirm?token=tok"
    );
    assert_eq!(
        c.html_body,
        "<p>Open the link to confirm your newsletter subscription.<br /><a href='http://x/confirm?token=tok'>http://x/confirm?token=tok</a></p>"
    );
}

#[test]
fn fresh_subscribe_creates_one_pending_subscriber() {
    let mut store = SubscriberStore::new();
    let reply = subscribe_fresh(&mut store, "Ursula", "ursula@example.com");
    assert_eq!(reply.outcome, SubscribeOutcome::ConfirmationSent);
    assert_eq!(store.len(), 1);
    let (id, status) = store.find_by_email("ursula@example.com").unwrap();
    assert_eq!(status, SubscriptionStatus::Pending);
    let token = store.token_for(id).unwrap();
    assert!(is_token(&token));
    let c = reply.confirmation.unwrap();
    assert_eq!(c.token, token);
    assert_eq!(c.to.as_str(), "ursula@example.com");
    assert_eq!(c.link, format!("{}?token={}", ENDPOINT, token));
}

#[test]
fn resubscribing_pending_rotates_the_token() {
    let mut store = SubscriberStore::new();
    subscribe(&mut store, "Ursula".into(), "ursula@example.com".into(), "tokenone", 7, 0, ENDPOINT)
        .unwrap();
    let first = store.token_for(7).unwrap();
    let reply =
        subscribe(&mut store, "Ursula".into(), "ursula@example.com".into(), "tokentwo", 8, 1, ENDPOINT)
            .unwrap();
    assert_eq!(reply.outcome, SubscribeOutcome::ConfirmationResent);
    assert_eq!(reply.confirmation.unwrap().token, "tokentwo");
    let second = store.token_for(7).unwrap();
    assert_eq!(first, "tokenone");
    assert_eq!(second, "tokentwo");
    assert_eq!(store.len(), 1);
    assert_eq!(store.token_for(8), None);
    assert_eq!(store.find_subscriber_id_by_token("tokenone"), None);
}

#[test]
fn resubscribing_with_the_same_token_is_refused() {
    let mut store = SubscriberStore::new();
    subscribe(&mut store, "Ursula".into(), "ursula@example.com".into(), "same", 7, 0, ENDPOINT)
        .unwrap();
    let r = subscribe(&mut store, "Ursula".into(), "ursula@example.com".into(), "same", 8, 1, ENDPOINT);
    assert!(matches!(r, Err(ServiceError::Unexpected)));
    assert_eq!(store.token_for(7).unwrap(), "same");
}

#[test]
fn twice_with_fresh_tokens_gives_two_tokens() {
    let mut store = SubscriberStore::new();
    let a = subscribe_fresh(&mut store, "U", "u@example.com");
    let b = subscribe_fresh(&mut store, "U", "u@example.com");
    assert_eq!(b.outcome, SubscribeOutcome::ConfirmationResent);
    assert_ne!(a.confirmation.unwrap().token, b.confirmation.unwrap().token);
    assert_eq!(store.len(), 1);
}

#[test]
fn subscribing_a_confirmed_email_writes_and_sends_nothing() {
    let mut store = SubscriberStore::new();
    subscribe(&mut store, "Ursula".into(), "ursula@example.com".into(), "tok", 7, 0, ENDPOINT)
        .unwrap();
    assert_eq!(subscribe_confirm(&mut store, "tok"), Ok(7));
    let reply =
        subscribe(&mut store, "Ursula".into(), "ursula@example.com".into(), "other", 8, 1, ENDPOINT)
            .unwrap();
    assert_eq!(reply.outcome, SubscribeOutcome::AlreadyConfirmed);
    assert!(reply.confirmation.is_none());
    assert_eq!(store.len(), 1);
    assert_eq!(store.token_for(7).unwrap(), "tok");
    assert_eq!(store.find_subscriber_id_by_token("other"), None);
}

#[test]
fn confirming_an_unknown_token_is_not_found() {
    let mut store = SubscriberStore::new();
    subscribe(&mut store, "Ursula".into(), "ursula@example.com".into(), "tok", 7, 0, ENDPOINT)
        .unwrap();
    assert_eq!(subscribe_confirm(&mut store, "nope"), Err(ServiceError::NotFound));
    assert_eq!(
        store.find_by_email("ursula@example.com"),
        Some((7, SubscriptionStatus::Pending))
    );
}

#[test]
fn confirming_twice_is_harmless() {
    let mut store = SubscriberStore::new();
    subscribe(&mut store, "A".into(), "a@example.com".into(), "toka", 1, 0, ENDPOINT).unwrap();
    subscribe(&mut store, "B".into(), "b@example.com".into(), "tokb", 2, 0, ENDPOINT).unwrap();
    assert_eq!(subscribe_confirm(&mut store, "toka"), Ok(1));
    assert_eq!(store.find_by_email("a@example.com"), Some((1, SubscriptionStatus::Confirmed)));
    assert_eq!(store.find_by_email("b@example.com"), Some((2, SubscriptionStatus::Pending)));
    assert_eq!(subscribe_confirm(&mut store, "toka"), Ok(1));
    assert_eq!(store.find_by_email("a@example.com"), Some((1, SubscriptionStatus::Confirmed)));
    assert_eq!(store.find_by_email("b@example.com"), Some((2, SubscriptionStatus::Pending)));
}

#[test]
fn invalid_input_writes_nothing() {
    let mut store = SubscriberStore::new();
    let r = subscribe(&mut store, "<b>".into(), "ursula@example.com".into(), "t", 1, 0, ENDPOINT);
    assert!(matches!(r, Err(ServiceError::InvalidInput(ValidationError::InvalidName))));
    let r = subscribe(&mut store, "Ursula".into(), "nope".into(), "t", 1, 0, ENDPOINT);
    assert!(matches!(r, Err(ServiceError::InvalidInput(ValidationError::InvalidEmail))));
    let r = subscribe(&mut store, "Ursula".into(), "u@example.com".into(), "t", 1, 0, "::");
    assert!(matches!(r, Err(ServiceError::Unexpected)));
    assert_eq!(store.len(), 0);
}

#[test]
fn duplicate_id_is_unexpected() {
    let mut store = SubscriberStore::new();
    subscribe(&mut store, "A".into(), "a@example.com".into(), "toka", 1, 0, ENDPOINT).unwrap();
    let r = subscribe(&mut store, "B".into(), "b@example.com".into(), "tokb", 1, 0, ENDPOINT);
    assert!(matches!(r, Err(ServiceError::Unexpected)));
    assert_eq!(store.len(), 1);
}

#[test]
fn concurrent_first_subscribes_have_one_winner() {
    let mut store = SubscriberStore::new();
    let name = SubscriberName::new("Ursula".into()).unwrap();
    let email = EmailAdderess::new("ursula@example.com".into()).unwrap();
    // Both requests looked the email up and found nothing; then both insert.
    assert_eq!(store.find_by_email(email.as_str()), None);
    let first = store.create_subscriber_with_token(1, &name, &email, "tokone", 0);
    let second = store.create_subscriber_with_token(2, &name, &email, "toktwo", 0);
    assert_eq!(first, Ok(1));
    assert_eq!(second, Err(StoreError::Conflict));
    assert_eq!(store.len(), 1);
    assert_eq!(store.find_subscriber_id_by_token("toktwo"), None);
}

#[test]
fn apply_subscribe_uses_the_given_link() {
    let mut store = SubscriberStore::new();
    let form = SubscriptionForm::new("U".into(), "u@example.com".into()).unwrap();
    let reply = apply_subscribe(&mut store, &form, "tok", 3, 5, "L").unwrap();
    let c = reply.confirmation.unwrap();
    assert_eq!(c.link, "L");
    assert_eq!(c.text_body, "Open the link to confirm your newsletter subscription. L");
}

#[test]
fn status_text_round_trip() {
    assert_eq!(SubscriptionStatus::Pending.as_text(), "Pending");
    assert_eq!(SubscriptionStatus::Confirmed.as_text(), "Confirmed");
    assert_eq!(SubscriptionStatus::parse(&"Pending".to_string()), Some(SubscriptionStatus::Pending));
    assert_eq!(SubscriptionStatus::parse(&"Confirmed".to_string()), Some(SubscriptionStatus::Confirmed));
    assert_eq!(SubscriptionStatus::parse(&"confirmed".to_string()), None);
    assert_eq!(SubscriptionStatus::default(), SubscriptionStatus::Pending);
}

#[test]
fn concurrent_first_subscribes_loser_sees_conflict() {
    let mut store = SubscriberStore::new();
    let form = SubscriptionForm::new("Ursula".into(), "ursula@example.com".into()).unwrap();
    // Both requests look the email up before either writes.
    let plan1 = plan_subscribe(&store, &form);
    let plan2 = plan_subscribe(&store, &form);
    assert_eq!(plan1, SubscribePlan::Create);
    assert_eq!(plan2, SubscribePlan::Create);
    let r1 = execute_subscribe(&mut store, plan1, &form, "tokone", 1, 0, "L1").unwrap();
    assert_eq!(r1.outcome, SubscribeOutcome::ConfirmationSent);
    let r2 = execute_subscribe(&mut store, plan2, &form, "toktwo", 2, 0, "L2");
    assert!(matches!(r2, Err(ServiceError::Conflict)));
    assert_eq!(store.len(), 1);
    assert_eq!(store.find_subscriber_id_by_token("toktwo"), None);
    // Retried, the loser is routed to the pending path.
    assert_eq!(plan_subscribe(&store, &form), SubscribePlan::Resend(1));
}

#[test]
fn plans_follow_the_stored_status() {
    let mut store = SubscriberStore::new();
    let form = SubscriptionForm::new("U".into(), "u@example.com".into()).unwrap();
    assert_eq!(plan_subscribe(&store, &form), SubscribePlan::Create);
    apply_subscribe(&mut store, &form, "tok", 9, 0, "L").unwrap();
    assert_eq!(plan_subscribe(&store, &form), SubscribePlan::Resend(9));
    subscribe_confirm(&mut store, "tok").unwrap();
    assert_eq!(plan_subscribe(&store, &form), SubscribePlan::AlreadyConfirmed);
    let r = execute_subscribe(&mut store, SubscribePlan::AlreadyConfirmed, &form, "x", 1, 0, "L").unwrap();
    assert!(r.confirmation.is_none());
}

#[test]
fn fresh_execution_with_a_bad_endpoint_writes_nothing() {
    let mut store = SubscriberStore::new();
    let form = SubscriptionForm::new("U".into(), "u@example.com".into()).unwrap();
    let plan = plan_subscribe(&store, &form);
    let r = execute_subscribe_fresh(&mut store, plan, &form, "no scheme");
    assert!(matches!(r, Err(ServiceError::Unexpected)));
    assert_eq!(store.len(), 0);
}

#[test]
fn confirmed_email_needs_no_link() {
    let mut store = SubscriberStore::new();
    subscribe(&mut store, "U".into(), "u@example.com".into(), "tok", 1, 0, ENDPOINT).unwrap();
    subscribe_confirm(&mut store, "tok").unwrap();
    let reply =
        subscribe(&mut store, "U".into(), "u@example.com".into(), "other", 2, 0, "not a url").unwrap();
    assert_eq!(reply.outcome, SubscribeOutcome::AlreadyConfirmed);
    assert!(reply.confirmation.is_none());
    let form = SubscriptionForm::new("U".into(), "u@example.com".into()).unwrap();
    let plan = plan_subscribe(&store, &form);
    let reply = execute_subscribe_fresh(&mut store, plan, &form, "not a url").unwrap();
    assert_eq!(reply.outcome, SubscribeOutcome::AlreadyConfirmed);
}
