//! Properties of the subscription state machine, proved over the store model.
use vstd::prelude::*;
use crate::store::{
    email_rows, has_email, id_used, owner_of_token, row_of_email, store_wf,
    token_live, token_of, with_confirmed, with_new_subscriber, StoreView,
    SubscriberView,
};
use crate::subscribe::{
    confirm_transition, execute_agrees, execute_transition, has_forbidden_name_char,
    is_confirmation, is_token, name_is_valid, plan_of, subscribe_transition, token_query,
    url_with_query, ServiceError, SubscribeOutcome, SubscribePlan, SubscribeReply,
    SubscriptionStatus, MAX_NAME_GRAPHEMES,
};
use crate::text::is_blank;

verus! {

/// The name rule at its edges: the empty name, a name of spaces, a name of
/// more than 256 grapheme clusters and any name holding `<` are refused; a
/// name of exactly 256 clusters that is not blank and holds no forbidden
/// character is accepted.
pub proof fn name_rule_edges(s: Seq<char>, graphemes: nat)
    ensures
        !name_is_valid(Seq::<char>::empty(), graphemes),
        !name_is_valid(seq![' ', ' ', ' '], graphemes),
        graphemes > MAX_NAME_GRAPHEMES ==> !name_is_valid(s, graphemes),
        s.contains('<') ==> !name_is_valid(s, graphemes),
        graphemes == MAX_NAME_GRAPHEMES && !is_blank(s) && !has_forbidden_name_char(s)
            ==> name_is_valid(s, graphemes),
{
    let spaces = seq![' ', ' ', ' '];
    assert(is_blank(spaces)) by {
        assert forall|i: int| 0 <= i < spaces.len() implies crate::text::is_white_space(
            #[trigger] spaces[i],
        ) by {
            assert(spaces[i] == ' ');
        }
    }
    if s.contains('<') {
        let i = choose|i: int| 0 <= i < s.len() && s[i] == '<';
        assert(crate::subscribe::is_forbidden_name_char(s[i]));
    }
}

proof fn lemma_rows_absent(subs: Seq<SubscriberView>, e: Seq<char>)
    requires
        forall|i: int| 0 <= i < subs.len() ==> (#[trigger] subs[i]).email != e,
    ensures
        email_rows(subs, e) == 0,
    decreases subs.len(),
{
    if subs.len() > 0 {
        let p = subs.drop_last();
        assert forall|i: int| 0 <= i < p.len() implies (#[trigger] p[i]).email != e by {
            assert(p[i] == subs[i]);
        }
        lemma_rows_absent(p, e);
    }
}

proof fn lemma_rows_single(subs: Seq<SubscriberView>, e: Seq<char>, k: int)
    requires
        0 <= k < subs.len(),
        subs[k].email == e,
        forall|i: int, j: int|
            0 <= i < subs.len() && 0 <= j < subs.len() && i != j ==> (#[trigger] subs[i]).email
                != (#[trigger] subs[j]).email,
    ensures
        email_rows(subs, e) == 1,
    decreases subs.len(),
{
    let p = subs.drop_last();
    let n = subs.len() - 1;
    if k == n {
        assert forall|i: int| 0 <= i < p.len() implies (#[trigger] p[i]).email != e by {
            assert(p[i] == subs[i]);
            assert(subs[i].email != subs[n].email);
        }
        lemma_rows_absent(p, e);
    } else {
        assert(subs[n].email != subs[k].email);
        assert forall|i: int, j: int|
            0 <= i < p.len() && 0 <= j < p.len() && i != j implies (#[trigger] p[i]).email
                != (#[trigger] p[j]).email by {
            assert(p[i] == subs[i]);
            assert(p[j] == subs[j]);
        }
        assert(p[k] == subs[k]);
        lemma_rows_single(p, e, k);
    }
}

proof fn lemma_row_of_new_email(
    s: StoreView,
    id: u128,
    name: Seq<char>,
    email: Seq<char>,
    token: Seq<char>,
    now: i64,
)
    requires
        store_wf(s),
        !has_email(s, email),
        !id_used(s, id),
        !token_live(s, token),
    ensures
        ({
            let t = with_new_subscriber(s, id, name, email, token, now);
            &&& row_of_email(t, email) == Some(
                SubscriberView {
                    id,
                    email,
                    name,
                    status: SubscriptionStatus::Pending,
                    subscribed_at: now,
                },
            )
            &&& email_rows(t.subscribers, email) == 1
            &&& token_of(t, id) == Some(token)
        }),
{
    let t = with_new_subscriber(s, id, name, email, token, now);
    let n = s.subscribers.len() as int;
    let m = s.tokens.len() as int;
    assert(t.subscribers[n].email == email);
    assert(has_email(t, email));
    let i = choose|i: int| 0 <= i < t.subscribers.len() && (#[trigger] t.subscribers[i]).email == email;
    if i < n {
        assert(t.subscribers[i] == s.subscribers[i]);
    }
    assert(t.tokens[m].subscriber_id == id);
    let k = choose|k: int| 0 <= k < t.tokens.len() && (#[trigger] t.tokens[k]).subscriber_id == id;
    if k < m {
        assert(t.tokens[k] == s.tokens[k]);
        assert(id_used(s, s.tokens[k].subscriber_id));
    }
    assert forall|a: int, b: int|
        0 <= a < t.subscribers.len() && 0 <= b < t.subscribers.len() && a != b
            implies (#[trigger] t.subscribers[a]).email != (#[trigger] t.subscribers[b]).email by {
        if a < n && b == n {
            assert(s.subscribers[a].email != email);
        } else if b < n && a == n {
            assert(s.subscribers[b].email != email);
        }
    }
    lemma_rows_single(t.subscribers, email, n);
}

/// Subscribing a valid name and an email that is not stored yet, with an id
/// and a token that are not taken, stores exactly one row for the email: a
/// pending subscriber that owns exactly that token, one row and one token
/// more in all; the request reports that a confirmation is sent.
pub proof fn fresh_subscribe_creates_one_pending(
    s: StoreView,
    name: Seq<char>,
    email: Seq<char>,
    token: Seq<char>,
    id: u128,
    now: i64,
)
    requires
        store_wf(s),
        !has_email(s, email),
        !id_used(s, id),
        !token_live(s, token),
        is_token(token),
    ensures
        ({
            let (t, res) = subscribe_transition(s, name, email, token, id, now);
            &&& res == Ok::<SubscribeOutcome, ServiceError>(SubscribeOutcome::ConfirmationSent)
            &&& t.subscribers.len() == s.subscribers.len() + 1
            &&& t.tokens.len() == s.tokens.len() + 1
            &&& email_rows(t.subscribers, email) == 1
            &&& row_of_email(t, email) == Some(
                SubscriberView {
                    id,
                    email,
                    name,
                    status: SubscriptionStatus::Pending,
                    subscribed_at: now,
                },
            )
            &&& token_of(t, id) == Some(token)
            &&& is_token(token_of(t, id)->0)
        }),
{
    lemma_row_of_new_email(s, id, name, email, token, now);
}

/// Re-subscribing a pending email that succeeds hands the subscriber a token
/// other than the one it owned, and adds or changes no subscriber row.
pub proof fn resubscribe_pending_rotates_token(
    s: StoreView,
    name: Seq<char>,
    email: Seq<char>,
    token: Seq<char>,
    id: u128,
    now: i64,
)
    requires
        store_wf(s),
        row_of_email(s, email) matches Some(row) && row.status == SubscriptionStatus::Pending,
    ensures
        ({
            let row = row_of_email(s, email)->0;
            let (t, res) = subscribe_transition(s, name, email, token, id, now);
            &&& t.subscribers == s.subscribers
            &&& token_of(s, row.id) is Some
            &&& res is Ok ==> {
                &&& res == Ok::<SubscribeOutcome, ServiceError>(SubscribeOutcome::ConfirmationResent)
                &&& token_of(t, row.id) == Some(token)
                &&& token_of(s, row.id)->0 != token
            }
            &&& res is Err ==> t == s
        }),
{
    let row = row_of_email(s, email)->0;
    let i = choose|i: int| 0 <= i < s.subscribers.len() && (#[trigger] s.subscribers[i]).email == email;
    assert(s.subscribers[i].status == SubscriptionStatus::Pending);
    assert(token_of(s, row.id) is Some);
    let k = choose|k: int| 0 <= k < s.tokens.len() && (#[trigger] s.tokens[k]).subscriber_id == row.id;
    let (t, res) = subscribe_transition(s, name, email, token, id, now);
    if res is Ok {
        assert(!token_live(s, token));
        assert(s.tokens[k].token != token);
        assert(t.tokens[k].subscriber_id == row.id);
        assert(t.tokens[k].token == token);
        let l = choose|l: int| 0 <= l < t.tokens.len() && (#[trigger] t.tokens[l]).subscriber_id == row.id;
        if l != k {
            assert(s.tokens[l].subscriber_id != s.tokens[k].subscriber_id);
        }
    }
}

/// Subscribing the same pending email twice in a row, both times with
/// success, leaves three different token values one after the other and
/// never a second row for the email.
pub proof fn resubscribe_twice_rotates_twice(
    s: StoreView,
    name: Seq<char>,
    email: Seq<char>,
    token1: Seq<char>,
    token2: Seq<char>,
    id1: u128,
    id2: u128,
    now1: i64,
    now2: i64,
)
    requires
        store_wf(s),
        row_of_email(s, email) matches Some(row) && row.status == SubscriptionStatus::Pending,
    ensures
        ({
            let row = row_of_email(s, email)->0;
            let (s1, res1) = subscribe_transition(s, name, email, token1, id1, now1);
            let (s2, res2) = subscribe_transition(s1, name, email, token2, id2, now2);
            res1 is Ok && res2 is Ok ==> {
                &&& token_of(s1, row.id) == Some(token1)
                &&& token_of(s2, row.id) == Some(token2)
                &&& token_of(s, row.id)->0 != token1
                &&& token1 != token2
                &&& s2.subscribers == s.subscribers
            }
        }),
{
    resubscribe_pending_rotates_token(s, name, email, token1, id1, now1);
    let (s1, res1) = subscribe_transition(s, name, email, token1, id1, now1);
    if res1 is Ok {
        crate::store::lemma_rotation_keeps_wf(s, row_of_email(s, email)->0.id, token1);
        assert(row_of_email(s1, email) == row_of_email(s, email));
        resubscribe_pending_rotates_token(s1, name, email, token2, id2, now2);
    }
}

/// Subscribing an email that is confirmed already writes nothing and reports
/// it as confirmed.
pub proof fn subscribe_confirmed_is_idle(
    s: StoreView,
    name: Seq<char>,
    email: Seq<char>,
    token: Seq<char>,
    id: u128,
    now: i64,
)
    requires
        row_of_email(s, email) matches Some(row) && row.status == SubscriptionStatus::Confirmed,
    ensures
        subscribe_transition(s, name, email, token, id, now) == (
            s,
            Ok::<SubscribeOutcome, ServiceError>(SubscribeOutcome::AlreadyConfirmed),
        ),
{
}

/// Confirming with a token that no subscriber owns is `NotFound` and changes
/// nothing.
pub proof fn confirm_unknown_token_changes_nothing(s: StoreView, token: Seq<char>)
    requires
        !token_live(s, token),
    ensures
        confirm_transition(s, token) == (s, Err::<u128, ServiceError>(ServiceError::NotFound)),
{
}

/// Confirming with a live token confirms exactly its owner and leaves every
/// other row and every token as it was; confirming again with it changes
/// nothing and succeeds.
pub proof fn confirm_confirms_owner_once(s: StoreView, token: Seq<char>)
    requires
        store_wf(s),
        token_live(s, token),
    ensures
        ({
            let id = owner_of_token(s, token)->0;
            let (t, r) = confirm_transition(s, token);
            &&& r == Ok::<u128, ServiceError>(id)
            &&& t.tokens == s.tokens
            &&& t.subscribers.len() == s.subscribers.len()
            &&& forall|i: int|
                0 <= i < s.subscribers.len() ==> if (#[trigger] s.subscribers[i]).id == id {
                    t.subscribers[i] == SubscriberView {
                        status: SubscriptionStatus::Confirmed,
                        ..s.subscribers[i]
                    }
                } else {
                    t.subscribers[i] == s.subscribers[i]
                }
            &&& confirm_transition(t, token) == (t, r)
        }),
{
    let id = owner_of_token(s, token)->0;
    let t = with_confirmed(s, id);
    assert(owner_of_token(t, token) == owner_of_token(s, token));
    assert(with_confirmed(t, id).subscribers =~= t.subscribers);
}

/// Two first-time subscribe requests for one new email that both looked the
/// email up before either wrote: both plan a creation; the first to write
/// creates the subscriber, the second is refused as `Conflict` and writes
/// nothing, so the email has exactly one row.
pub proof fn concurrent_first_subscribes_one_winner(
    s: StoreView,
    email: Seq<char>,
    name1: Seq<char>,
    token1: Seq<char>,
    id1: u128,
    now1: i64,
    name2: Seq<char>,
    token2: Seq<char>,
    id2: u128,
    now2: i64,
)
    requires
        store_wf(s),
        !has_email(s, email),
        !id_used(s, id1),
        !token_live(s, token1),
    ensures
        ({
            let (s1, r1) = execute_transition(s, SubscribePlan::Create, name1, email, token1, id1, now1);
            let (s2, r2) = execute_transition(s1, SubscribePlan::Create, name2, email, token2, id2, now2);
            &&& plan_of(s, email) == SubscribePlan::Create
            &&& r1 == Ok::<SubscribeOutcome, ServiceError>(SubscribeOutcome::ConfirmationSent)
            &&& r2 == Err::<SubscribeOutcome, ServiceError>(ServiceError::Conflict)
            &&& s2 == s1
            &&& email_rows(s2.subscribers, email) == 1
        }),
{
    lemma_row_of_new_email(s, id1, name1, email, token1, now1);
    let s1 = with_new_subscriber(s, id1, name1, email, token1, now1);
    assert(s1.subscribers[s.subscribers.len() as int].email == email);
}

/// A request for a new email, whose confirmation link can be built and whose
/// id and token are free, answers `ConfirmationSent` with exactly one email
/// to send: the confirmation to that address, carrying the stored token in
/// its link.
pub proof fn fresh_subscribe_sends_one_confirmation(
    before: StoreView,
    after: StoreView,
    r: Result<SubscribeReply, ServiceError>,
    name: Seq<char>,
    email: Seq<char>,
    endpoint: Seq<char>,
    token: Seq<char>,
    id: u128,
    now: i64,
)
    requires
        store_wf(before),
        !has_email(before, email),
        !id_used(before, id),
        !token_live(before, token),
        url_with_query(endpoint, token_query(token)) is Some,
        execute_agrees(before, after, r, plan_of(before, email), name, email, endpoint, token, id, now),
    ensures
        r is Ok,
        r->Ok_0.outcome == SubscribeOutcome::ConfirmationSent,
        r->Ok_0.confirmation is Some,
        is_confirmation(
            r->Ok_0.confirmation->0,
            email,
            token,
            url_with_query(endpoint, token_query(token))->0,
        ),
        after == with_new_subscriber(before, id, name, email, token, now),
        token_of(after, id) == Some(token),
{
    lemma_row_of_new_email(before, id, name, email, token, now);
}

/// A request for an email that is confirmed already writes nothing and has
/// nothing to send, whatever the confirmation endpoint.
pub proof fn confirmed_subscribe_writes_and_sends_nothing(
    before: StoreView,
    after: StoreView,
    r: Result<SubscribeReply, ServiceError>,
    name: Seq<char>,
    email: Seq<char>,
    endpoint: Seq<char>,
    token: Seq<char>,
    id: u128,
    now: i64,
)
    requires
        row_of_email(before, email) matches Some(row) && row.status == SubscriptionStatus::Confirmed,
        execute_agrees(before, after, r, plan_of(before, email), name, email, endpoint, token, id, now),
    ensures
        after == before,
        r matches Ok(reply) && reply.outcome == SubscribeOutcome::AlreadyConfirmed
            && reply.confirmation is None,
{
}

} // verus!
