use mailmule::email::{EmailAdderess, EmailRequestBody};
use mailmule::publish::{plan_broadcast, plan_for_confirmed, tally, Summary};
use mailmule::store::SubscriberStore;
use mailmule::subscribe::{subscribe, subscribe_confirm};

#[test]
fn broadcast_skips_invalid_and_counts_failures() {
    let mut stored = Vec::new();
    for i in 0..8 {
        stored.push(format!("reader{}@example.com", i));
    }
    stored.insert(3, "not-an-address".to_string());
    stored.insert(7, "also@@wrong".to_string());
    assert_eq!(stored.len(), 10);
    let plan = plan_broadcast(&stored);
    assert_eq!(plan.total, 10);
    assert_eq!(plan.recipients.len(), 8);
    for (i, r) in plan.recipients.iter().enumerate() {
        assert_eq!(r.as_str(), format!("reader{}@example.com", i));
    }
    let failures = vec![false, true, false, false, true, false, true, false];
    let summary = tally(&plan, &failures);
    assert_eq!(summary, Summary { valid: 8, failed: 3, total: 10 });
    assert_eq!(summary.delivered(), 5);
}

#[test]
fn empty_broadcast() {
    let plan = plan_broadcast(&Vec::new());
    assert_eq!(plan.total, 0);
    let summary = tally(&plan, &Vec::new());
    assert_eq!(summary, Summary { valid: 0, failed: 0, total: 0 });
    assert_eq!(summary.delivered(), 0);
}

#[test]
fn only_confirmed_subscribers_are_planned() {
    let endpoint = "http://localhost/subscribe/confirm";
    let mut store = SubscriberStore::new();
    subscribe(&mut store, "A".into(), "a@example.com".into(), "ta", 1, 0, endpoint).unwrap();
    subscribe(&mut store, "B".into(), "b@example.com".into(), "tb", 2, 0, endpoint).unwrap();
    subscribe(&mut store, "C".into(), "c@example.com".into(), "tc", 3, 0, endpoint).unwrap();
    subscribe_confirm(&mut store, "tc").unwrap();
    subscribe_confirm(&mut store, "ta").unwrap();
    assert_eq!(store.list_confirmed_emails(), vec!["a@example.com", "c@example.com"]);
    let plan = plan_for_confirmed(&store);
    assert_eq!(plan.total, 2);
    let to: Vec<&str> = plan.recipients.iter().map(|e| e.as_str()).collect();
    assert_eq!(to, vec!["a@example.com", "c@example.com"]);
}

#[test]
fn delivered_never_underflows() {
    assert_eq!(Summary { valid: 1, failed: 2, total: 3 }.delivered(), 0);
}

#[test]
fn request_body_fields() {
    let from = EmailAdderess::new("news@example.com".into()).unwrap();
    let to = EmailAdderess::new("a@example.com".into()).unwrap();
    let b = EmailRequestBody::new(&from, &to, "Hi", "text", "<p>html</p>");
    assert_eq!(b.from, "news@example.com");
    assert_eq!(b.to, "a@example.com");
    assert_eq!(b.subject, "Hi");
    assert_eq!(b.text_body, "text");
    assert_eq!(b.html_body, "<p>html</p>");
}
