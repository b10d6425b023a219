//! Broadcasting content to every confirmed subscriber, with stored addresses
//! checked again before anything is sent, and the tally of the sends.
use vstd::prelude::*;
use crate::email::{is_valid_email, EmailAdderess};
use crate::store::{confirmed_emails, SubscriberStore};

verus! {

/// The content of a broadcast.
pub struct PublishContent {
    pub text: String,
    pub html: String,
}

/// A broadcast request: a title and its content.
pub struct PublishBody {
    pub title: String,
    pub content: PublishContent,
}

/// The stored addresses that are still valid, in their order.
pub open spec fn valid_emails(stored: Seq<Seq<char>>) -> Seq<Seq<char>>
    decreases stored.len(),
{
    if stored.len() == 0 {
        Seq::empty()
    } else if is_valid_email(stored.last()) {
        valid_emails(stored.drop_last()).push(stored.last())
    } else {
        valid_emails(stored.drop_last())
    }
}

/// The number of `true` entries.
pub open spec fn count_true(s: Seq<bool>) -> nat
    decreases s.len(),
{
    if s.len() == 0 {
        0
    } else {
        count_true(s.drop_last()) + if s.last() { 1nat } else { 0nat }
    }
}

proof fn lemma_valid_emails_len(stored: Seq<Seq<char>>)
    ensures
        valid_emails(stored).len() <= stored.len(),
    decreases stored.len(),
{
    if stored.len() > 0 {
        lemma_valid_emails_len(stored.drop_last());
    }
}

proof fn lemma_count_true_len(s: Seq<bool>)
    ensures
        count_true(s) <= s.len(),
    decreases s.len(),
{
    if s.len() > 0 {
        lemma_count_true_len(s.drop_last());
    }
}

/// Who a broadcast goes to: the valid addresses among `total` stored ones.
pub struct BroadcastPlan {
    pub recipients: Vec<EmailAdderess>,
    pub total: usize,
}

/// The plan for the stored addresses `stored`: each is checked again, and
/// only the valid ones, in their order, become recipients.
pub fn plan_broadcast(stored: &Vec<String>) -> (r: BroadcastPlan)
    ensures
        r.total == stored@.len(),
        r.recipients@.map_values(|e: EmailAdderess| e@) == valid_emails(
            stored@.map_values(|s: String| s@),
        ),
        r.recipients@.len() <= r.total,
{
    let ghost all = stored@.map_values(|s: String| s@);
    let n = stored.len();
    let mut recipients: Vec<EmailAdderess> = Vec::new();
    let mut i: usize = 0;
    while i < n
        invariant
            n == stored.len(),
            all == stored@.map_values(|s: String| s@),
            i <= n,
            recipients@.map_values(|e: EmailAdderess| e@) == valid_emails(all.take(i as int)),
        decreases n - i,
    {
        let ghost prev = recipients@;
        assert(all.take(i as int + 1).drop_last() =~= all.take(i as int));
        match EmailAdderess::new(stored[i].clone()) {
            Ok(e) => {
                recipients.push(e);
                assert(recipients@.map_values(|e: EmailAdderess| e@) =~= prev.map_values(
                    |e: EmailAdderess| e@,
                ).push(all[i as int]));
            },
            Err(_) => {},
        }
        i = i + 1;
    }
    assert(all.take(n as int) =~= all);
    proof {
        lemma_valid_emails_len(all);
    }
    BroadcastPlan { recipients, total: n }
}

/// The plan for a broadcast to the confirmed subscribers of `store`.
pub fn plan_for_confirmed(store: &SubscriberStore) -> (r: BroadcastPlan)
    ensures
        r.total == confirmed_emails(store@.subscribers).len(),
        r.recipients@.map_values(|e: EmailAdderess| e@) == valid_emails(
            confirmed_emails(store@.subscribers),
        ),
        r.recipients@.len() <= r.total,
{
    let stored = store.list_confirmed_emails();
    plan_broadcast(&stored)
}

/// The outcome of a broadcast: `valid` addresses were sent to, `failed` of
/// those sends failed, out of `total` confirmed subscribers.
#[derive(Debug, Clone, Copy, PartialEq, Eq, Structural)]
pub struct Summary {
    pub valid: usize,
    pub failed: usize,
    pub total: usize,
}

impl Summary {
    /// The number of subscribers that the content reached.
    pub fn delivered(&self) -> (r: usize)
        ensures
            r == if self.failed <= self.valid {
                self.valid - self.failed
            } else {
                0
            },
    {
        if self.failed <= self.valid {
            self.valid - self.failed
        } else {
            0
        }
    }
}

/// Tallies a broadcast: `failures[i]` says whether the send to the `i`-th
/// recipient failed. A failed send fails no other and not the broadcast.
pub fn tally(plan: &BroadcastPlan, failures: &Vec<bool>) -> (r: Summary)
    requires
        failures@.len() == plan.recipients@.len(),
    ensures
        r.valid == plan.recipients@.len(),
        r.failed == count_true(failures@),
        r.total == plan.total,
        r.failed <= r.valid,
{
    let n = failures.len();
    let mut failed: usize = 0;
    let mut i: usize = 0;
    while i < n
        invariant
            n == failures@.len(),
            i <= n,
            failed == count_true(failures@.take(i as int)),
        decreases n - i,
    {
        assert(failures@.take(i as int + 1).drop_last() =~= failures@.take(i as int));
        proof {
            lemma_count_true_len(failures@.take(i as int));
        }
        if failures[i] {
            failed = failed + 1;
        }
        i = i + 1;
    }
    assert(failures@.take(n as int) =~= failures@);
    proof {
        lemma_count_true_len(failures@);
    }
    Summary { valid: plan.recipients.len(), failed, total: plan.total }
}

} // verus!
