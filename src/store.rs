//! The subscriber store: subscriber rows and their confirmation tokens, with
//! each operation applied as one atomic step.
use vstd::prelude::*;
use crate::email::EmailAdderess;
use crate::subscribe::{SubscriberName, SubscriptionStatus};
use crate::text::str_eq;

verus! {

/// A subscriber row, as the contracts see it.
pub struct SubscriberView {
    pub id: u128,
    pub email: Seq<char>,
    pub name: Seq<char>,
    pub status: SubscriptionStatus,
    pub subscribed_at: i64,
}

/// A confirmation token row, as the contracts see it.
pub struct TokenView {
    pub token: Seq<char>,
    pub subscriber_id: u128,
}

/// The whole store: its rows in the order they were inserted.
pub struct StoreView {
    pub subscribers: Seq<SubscriberView>,
    pub tokens: Seq<TokenView>,
}

/// The store's invariant: emails, ids and token values are unique; each token
/// belongs to an existing subscriber, which owns no other token; and every
/// pending subscriber owns a token.
pub open spec fn store_wf(s: StoreView) -> bool {
    &&& forall|i: int, j: int|
        0 <= i < s.subscribers.len() && 0 <= j < s.subscribers.len() && i != j
            ==> (#[trigger] s.subscribers[i]).email != (#[trigger] s.subscribers[j]).email
    &&& forall|i: int, j: int|
        0 <= i < s.subscribers.len() && 0 <= j < s.subscribers.len() && i != j
            ==> (#[trigger] s.subscribers[i]).id != (#[trigger] s.subscribers[j]).id
    &&& forall|k: int, l: int|
        0 <= k < s.tokens.len() && 0 <= l < s.tokens.len() && k != l
            ==> (#[trigger] s.tokens[k]).token != (#[trigger] s.tokens[l]).token
    &&& forall|k: int, l: int|
        0 <= k < s.tokens.len() && 0 <= l < s.tokens.len() && k != l
            ==> (#[trigger] s.tokens[k]).subscriber_id != (#[trigger] s.tokens[l]).subscriber_id
    &&& forall|k: int| 0 <= k < s.tokens.len() ==> id_used(s, (#[trigger] s.tokens[k]).subscriber_id)
    &&& forall|i: int|
        0 <= i < s.subscribers.len() && (#[trigger] s.subscribers[i]).status
            == SubscriptionStatus::Pending ==> has_token(s, s.subscribers[i].id)
}

pub open spec fn has_email(s: StoreView, e: Seq<char>) -> bool {
    exists|i: int| 0 <= i < s.subscribers.len() && (#[trigger] s.subscribers[i]).email == e
}

pub open spec fn id_used(s: StoreView, id: u128) -> bool {
    exists|i: int| 0 <= i < s.subscribers.len() && (#[trigger] s.subscribers[i]).id == id
}

pub open spec fn token_live(s: StoreView, t: Seq<char>) -> bool {
    exists|k: int| 0 <= k < s.tokens.len() && (#[trigger] s.tokens[k]).token == t
}

pub open spec fn has_token(s: StoreView, id: u128) -> bool {
    exists|k: int| 0 <= k < s.tokens.len() && (#[trigger] s.tokens[k]).subscriber_id == id
}

/// The row of the subscriber with email `e`, if any.
pub open spec fn row_of_email(s: StoreView, e: Seq<char>) -> Option<SubscriberView> {
    if has_email(s, e) {
        let i = choose|i: int| 0 <= i < s.subscribers.len() && (#[trigger] s.subscribers[i]).email == e;
        Some(s.subscribers[i])
    } else {
        None
    }
}

/// The subscriber that owns token `t`, if any.
pub open spec fn owner_of_token(s: StoreView, t: Seq<char>) -> Option<u128> {
    token_owner(s.tokens, t)
}

/// The subscriber of the token row that holds `t`, if any.
pub open spec fn token_owner(tokens: Seq<TokenView>, t: Seq<char>) -> Option<u128> {
    if exists|k: int| 0 <= k < tokens.len() && (#[trigger] tokens[k]).token == t {
        let k = choose|k: int| 0 <= k < tokens.len() && (#[trigger] tokens[k]).token == t;
        Some(tokens[k].subscriber_id)
    } else {
        None
    }
}

/// The token value that subscriber `id` owns, if any.
pub open spec fn token_of(s: StoreView, id: u128) -> Option<Seq<char>> {
    if has_token(s, id) {
        let k = choose|k: int| 0 <= k < s.tokens.len() && (#[trigger] s.tokens[k]).subscriber_id == id;
        Some(s.tokens[k].token)
    } else {
        None
    }
}

/// The number of rows with email `e`.
pub open spec fn email_rows(s: Seq<SubscriberView>, e: Seq<char>) -> nat
    decreases s.len(),
{
    if s.len() == 0 {
        0
    } else {
        email_rows(s.drop_last(), e) + if s.last().email == e { 1nat } else { 0nat }
    }
}

/// The store after a new pending subscriber and its token are inserted.
pub open spec fn with_new_subscriber(
    s: StoreView,
    id: u128,
    name: Seq<char>,
    email: Seq<char>,
    token: Seq<char>,
    now: i64,
) -> StoreView {
    StoreView {
        subscribers: s.subscribers.push(
            SubscriberView {
                id,
                email,
                name,
                status: SubscriptionStatus::Pending,
                subscribed_at: now,
            },
        ),
        tokens: s.tokens.push(TokenView { token, subscriber_id: id }),
    }
}

/// The store after subscriber `id`'s token is overwritten with `token`.
pub open spec fn with_rotated_token(s: StoreView, id: u128, token: Seq<char>) -> StoreView {
    StoreView {
        subscribers: s.subscribers,
        tokens: s.tokens.map_values(
            |t: TokenView|
                if t.subscriber_id == id {
                    TokenView { token, subscriber_id: id }
                } else {
                    t
                },
        ),
    }
}

/// The store after subscriber `id` is marked confirmed.
pub open spec fn with_confirmed(s: StoreView, id: u128) -> StoreView {
    StoreView {
        subscribers: s.subscribers.map_values(
            |r: SubscriberView|
                if r.id == id {
                    SubscriberView { status: SubscriptionStatus::Confirmed, ..r }
                } else {
                    r
                },
        ),
        tokens: s.tokens,
    }
}

/// The emails of the confirmed subscribers, in row order.
pub open spec fn confirmed_emails(s: Seq<SubscriberView>) -> Seq<Seq<char>>
    decreases s.len(),
{
    if s.len() == 0 {
        Seq::empty()
    } else if s.last().status == SubscriptionStatus::Confirmed {
        confirmed_emails(s.drop_last()).push(s.last().email)
    } else {
        confirmed_emails(s.drop_last())
    }
}

/// What inserting a new subscriber answers: `Conflict` where the email is
/// taken, `DuplicateKey` where the id or the token value is.
pub open spec fn create_result(s: StoreView, id: u128, email: Seq<char>, token: Seq<char>) -> Result<
    u128,
    StoreError,
> {
    if has_email(s, email) {
        Err(StoreError::Conflict)
    } else if id_used(s, id) || token_live(s, token) {
        Err(StoreError::DuplicateKey)
    } else {
        Ok(id)
    }
}

proof fn lemma_create_keeps_wf(
    s: StoreView,
    id: u128,
    name: Seq<char>,
    email: Seq<char>,
    token: Seq<char>,
    now: i64,
)
    requires
        store_wf(s),
        !has_email(s, email),
        !id_used(s, id),
        !token_live(s, token),
    ensures
        store_wf(with_new_subscriber(s, id, name, email, token, now)),
{
    let t = with_new_subscriber(s, id, name, email, token, now);
    let n = s.subscribers.len();
    let m = s.tokens.len();
    assert forall|k: int| 0 <= k < t.tokens.len() implies id_used(t, (#[trigger] t.tokens[k]).subscriber_id) by {
        if k < m {
            let sid = s.tokens[k].subscriber_id;
            assert(id_used(s, sid));
            let i = choose|i: int| 0 <= i < n && (#[trigger] s.subscribers[i]).id == sid;
            assert(t.subscribers[i] == s.subscribers[i]);
        } else {
            assert(t.subscribers[n as int].id == id);
        }
    }
    assert forall|i: int|
        0 <= i < t.subscribers.len() && (#[trigger] t.subscribers[i]).status
            == SubscriptionStatus::Pending implies has_token(t, t.subscribers[i].id) by {
        if i < n {
            assert(has_token(s, s.subscribers[i].id));
            let k = choose|k: int| 0 <= k < m && (#[trigger] s.tokens[k]).subscriber_id == s.subscribers[i].id;
            assert(t.tokens[k] == s.tokens[k]);
        } else {
            assert(t.tokens[m as int].subscriber_id == id);
        }
    }
    assert forall|k: int, l: int|
        0 <= k < t.tokens.len() && 0 <= l < t.tokens.len() && k != l
            implies (#[trigger] t.tokens[k]).subscriber_id != (#[trigger] t.tokens[l]).subscriber_id by {
        if k < m && l == m {
            let sid = s.tokens[k].subscriber_id;
            assert(id_used(s, sid));
        } else if l < m && k == m {
            let sid = s.tokens[l].subscriber_id;
            assert(id_used(s, sid));
        }
    }
    assert forall|k: int, l: int|
        0 <= k < t.tokens.len() && 0 <= l < t.tokens.len() && k != l
            implies (#[trigger] t.tokens[k]).token != (#[trigger] t.tokens[l]).token by {
        if k < m && l == m {
            assert(s.tokens[k].token != token);
        } else if l < m && k == m {
            assert(s.tokens[l].token != token);
        }
    }
    assert forall|i: int, j: int|
        0 <= i < t.subscribers.len() && 0 <= j < t.subscribers.len() && i != j
            implies (#[trigger] t.subscribers[i]).email != (#[trigger] t.subscribers[j]).email
            && t.subscribers[i].id != t.subscribers[j].id by {
        if i < n && j == n {
            assert(s.subscribers[i].email != email);
            assert(s.subscribers[i].id != id);
        } else if j < n && i == n {
            assert(s.subscribers[j].email != email);
            assert(s.subscribers[j].id != id);
        }
    }
}

pub proof fn lemma_rotation_keeps_wf(s: StoreView, id: u128, token: Seq<char>)
    requires
        store_wf(s),
        !token_live(s, token),
    ensures
        store_wf(with_rotated_token(s, id, token)),
{
    let t = with_rotated_token(s, id, token);
    assert forall|k: int| 0 <= k < t.tokens.len() implies id_used(t, (#[trigger] t.tokens[k]).subscriber_id) by {
        assert(t.tokens[k].subscriber_id == s.tokens[k].subscriber_id);
        assert(id_used(s, s.tokens[k].subscriber_id));
    }
    assert forall|i: int|
        0 <= i < t.subscribers.len() && (#[trigger] t.subscribers[i]).status
            == SubscriptionStatus::Pending implies has_token(t, t.subscribers[i].id) by {
        assert(has_token(s, s.subscribers[i].id));
        let k = choose|k: int| 0 <= k < s.tokens.len() && (#[trigger] s.tokens[k]).subscriber_id == s.subscribers[i].id;
        assert(t.tokens[k].subscriber_id == s.tokens[k].subscriber_id);
        assert(t.tokens[k].subscriber_id == t.subscribers[i].id);
        assert(0 <= k < t.tokens.len());
    }
    assert forall|k: int, l: int|
        0 <= k < t.tokens.len() && 0 <= l < t.tokens.len() && k != l
            implies (#[trigger] t.tokens[k]).subscriber_id != (#[trigger] t.tokens[l]).subscriber_id
            && t.tokens[k].token != t.tokens[l].token by {
        assert(s.tokens[k].subscriber_id != s.tokens[l].subscriber_id);
        assert(s.tokens[k].token != token);
        assert(s.tokens[l].token != token);
    }
}

proof fn lemma_confirm_keeps_wf(s: StoreView, id: u128)
    requires
        store_wf(s),
    ensures
        store_wf(with_confirmed(s, id)),
{
    let t = with_confirmed(s, id);
    assert forall|k: int| 0 <= k < t.tokens.len() implies id_used(t, (#[trigger] t.tokens[k]).subscriber_id) by {
        assert(id_used(s, s.tokens[k].subscriber_id));
        let i = choose|i: int| 0 <= i < s.subscribers.len() && (#[trigger] s.subscribers[i]).id == s.tokens[k].subscriber_id;
        assert(t.subscribers[i].id == s.subscribers[i].id);
    }
    assert forall|i: int|
        0 <= i < t.subscribers.len() && (#[trigger] t.subscribers[i]).status
            == SubscriptionStatus::Pending implies has_token(t, t.subscribers[i].id) by {
        assert(s.subscribers[i].status == SubscriptionStatus::Pending);
        assert(t.subscribers[i].id == s.subscribers[i].id);
        assert(has_token(s, s.subscribers[i].id));
        let k = choose|k: int| 0 <= k < s.tokens.len() && (#[trigger] s.tokens[k]).subscriber_id == s.subscribers[i].id;
        assert(t.tokens[k] == s.tokens[k]);
    }
    assert forall|i: int, j: int|
        0 <= i < t.subscribers.len() && 0 <= j < t.subscribers.len() && i != j
            implies (#[trigger] t.subscribers[i]).email != (#[trigger] t.subscribers[j]).email
            && t.subscribers[i].id != t.subscribers[j].id by {
        assert(s.subscribers[i].email != s.subscribers[j].email);
        assert(s.subscribers[i].id != s.subscribers[j].id);
    }
}

/// Why the store refused a write.
#[derive(Debug, Clone, Copy, PartialEq, Eq, Structural)]
pub enum StoreError {
    /// A subscriber with this email exists already.
    Conflict,
    /// The id or the token value is taken already.
    DuplicateKey,
}

/// A stored subscriber.
pub struct Subscriber {
    pub id: u128,
    pub email: String,
    pub name: String,
    pub status: SubscriptionStatus,
    pub subscribed_at: i64,
}

impl View for Subscriber {
    type V = SubscriberView;

    open spec fn view(&self) -> SubscriberView {
        SubscriberView {
            id: self.id,
            email: self.email@,
            name: self.name@,
            status: self.status,
            subscribed_at: self.subscribed_at,
        }
    }
}

/// A stored confirmation token.
pub struct ConfirmationToken {
    pub token: String,
    pub subscriber_id: u128,
}

impl View for ConfirmationToken {
    type V = TokenView;

    open spec fn view(&self) -> TokenView {
        TokenView { token: self.token@, subscriber_id: self.subscriber_id }
    }
}

/// Subscribers and their confirmation tokens.
pub struct SubscriberStore {
    subscribers: Vec<Subscriber>,
    tokens: Vec<ConfirmationToken>,
}

impl View for SubscriberStore {
    type V = StoreView;

    closed spec fn view(&self) -> StoreView {
        StoreView {
            subscribers: self.subscribers@.map_values(|r: Subscriber| r@),
            tokens: self.tokens@.map_values(|t: ConfirmationToken| t@),
        }
    }
}

impl SubscriberStore {
    pub open spec fn wf(&self) -> bool {
        store_wf(self@)
    }

    /// An empty store.
    pub fn new() -> (r: SubscriberStore)
        ensures
            r.wf(),
            r@.subscribers.len() == 0,
            r@.tokens.len() == 0,
    {
        let r = SubscriberStore { subscribers: Vec::new(), tokens: Vec::new() };
        assert(r@.subscribers =~= Seq::empty());
        assert(r@.tokens =~= Seq::empty());
        r
    }

    /// The number of subscribers.
    pub fn len(&self) -> (r: usize)
        ensures
            r == self@.subscribers.len(),
    {
        self.subscribers.len()
    }

    /// The id and status of the subscriber with this email, if any.
    pub fn find_by_email(&self, email: &str) -> (r: Option<(u128, SubscriptionStatus)>)
        requires
            self.wf(),
        ensures
            r == (match row_of_email(self@, email@) {
                Some(row) => Some((row.id, row.status)),
                None => None,
            }),
    {
        let n = self.subscribers.len();
        let mut i: usize = 0;
        while i < n
            invariant
                self.wf(),
                n == self.subscribers.len(),
                i <= n,
                forall|j: int| 0 <= j < i ==> (#[trigger] self@.subscribers[j]).email != email@,
            decreases n - i,
        {
            let row = &self.subscribers[i];
            if str_eq(row.email.as_str(), email) {
                assert(self@.subscribers[i as int].email == email@);
                assert(has_email(self@, email@));
                proof {
                    let k = choose|k: int|
                        0 <= k < self@.subscribers.len() && (#[trigger] self@.subscribers[k]).email
                            == email@;
                    assert(self@.subscribers[k].email == self@.subscribers[i as int].email);
                    assert(k == i);
                }
                return Some((row.id, row.status));
            }
            i = i + 1;
        }
        None
    }

    /// The subscriber that owns token `token`, if any.
    pub fn find_subscriber_id_by_token(&self, token: &str) -> (r: Option<u128>)
        requires
            self.wf(),
        ensures
            r == owner_of_token(self@, token@),
    {
        let n = self.tokens.len();
        let mut k: usize = 0;
        while k < n
            invariant
                self.wf(),
                n == self.tokens.len(),
                k <= n,
                forall|j: int| 0 <= j < k ==> (#[trigger] self@.tokens[j]).token != token@,
            decreases n - k,
        {
            let t = &self.tokens[k];
            if str_eq(t.token.as_str(), token) {
                assert(self@.tokens[k as int].token == token@);
                assert(token_live(self@, token@));
                proof {
                    let l = choose|l: int|
                        0 <= l < self@.tokens.len() && (#[trigger] self@.tokens[l]).token == token@;
                    assert(l == k);
                }
                return Some(t.subscriber_id);
            }
            k = k + 1;
        }
        None
    }

    /// Whether some token row holds the value `token`.
    fn token_taken(&self, token: &str) -> (r: bool)
        ensures
            r == token_live(self@, token@),
    {
        let n = self.tokens.len();
        let mut k: usize = 0;
        while k < n
            invariant
                n == self.tokens.len(),
                k <= n,
                forall|j: int| 0 <= j < k ==> (#[trigger] self@.tokens[j]).token != token@,
            decreases n - k,
        {
            if str_eq(self.tokens[k].token.as_str(), token) {
                assert(self@.tokens[k as int].token == token@);
                return true;
            }
            k = k + 1;
        }
        false
    }

    /// Whether some subscriber has the id `id`.
    fn id_taken(&self, id: u128) -> (r: bool)
        ensures
            r == id_used(self@, id),
    {
        let n = self.subscribers.len();
        let mut i: usize = 0;
        while i < n
            invariant
                n == self.subscribers.len(),
                i <= n,
                forall|j: int| 0 <= j < i ==> (#[trigger] self@.subscribers[j]).id != id,
            decreases n - i,
        {
            if self.subscribers[i].id == id {
                assert(self@.subscribers[i as int].id == id);
                return true;
            }
            i = i + 1;
        }
        false
    }

    /// Whether some subscriber has the email `email`.
    fn email_taken(&self, email: &str) -> (r: bool)
        ensures
            r == has_email(self@, email@),
    {
        let n = self.subscribers.len();
        let mut i: usize = 0;
        while i < n
            invariant
                n == self.subscribers.len(),
                i <= n,
                forall|j: int| 0 <= j < i ==> (#[trigger] self@.subscribers[j]).email != email@,
            decreases n - i,
        {
            if str_eq(self.subscribers[i].email.as_str(), email) {
                assert(self@.subscribers[i as int].email == email@);
                return true;
            }
            i = i + 1;
        }
        false
    }
    /// Inserts a pending subscriber together with its first token, all or
    /// nothing.
    pub fn create_subscriber_with_token(
        &mut self,
        id: u128,
        name: &SubscriberName,
        email: &EmailAdderess,
        token: &str,
        subscribed_at: i64,
    ) -> (r: Result<u128, StoreError>)
        requires
            old(self).wf(),
        ensures
            final(self).wf(),
            r == create_result(old(self)@, id, email@, token@),
            r is Ok ==> final(self)@ == with_new_subscriber(
                old(self)@,
                id,
                name@,
                email@,
                token@,
                subscribed_at,
            ),
            r is Err ==> final(self)@ == old(self)@,
    {
        if self.email_taken(email.as_str()) {
            return Err(StoreError::Conflict);
        }
        if self.id_taken(id) || self.token_taken(token) {
            return Err(StoreError::DuplicateKey);
        }
        let ghost before = self@;
        let row = Subscriber {
            id,
            email: String::from_str(email.as_str()),
            name: String::from_str(name.as_str()),
            status: SubscriptionStatus::Pending,
            subscribed_at,
        };
        let tok = ConfirmationToken { token: String::from_str(token), subscriber_id: id };
        self.subscribers.push(row);
        self.tokens.push(tok);
        proof {
            let after = with_new_subscriber(before, id, name@, email@, token@, subscribed_at);
            assert(self@.subscribers =~= after.subscribers);
            assert(self@.tokens =~= after.tokens);
            lemma_create_keeps_wf(before, id, name@, email@, token@, subscribed_at);
        }
        Ok(id)
    }

    /// Overwrites the token of subscriber `id` with `token`; a token value that
    /// is live already is refused.
    pub fn rotate_token(&mut self, id: u128, token: &str) -> (r: Result<(), StoreError>)
        requires
            old(self).wf(),
        ensures
            final(self).wf(),
            r is Err <==> token_live(old(self)@, token@),
            r is Err ==> r == Err::<(), StoreError>(StoreError::DuplicateKey) && final(self)@
                == old(self)@,
            r is Ok ==> final(self)@ == with_rotated_token(old(self)@, id, token@),
    {
        if self.token_taken(token) {
            return Err(StoreError::DuplicateKey);
        }
        let ghost before = self@;
        let n = self.tokens.len();
        let mut k: usize = 0;
        while k < n
            invariant
                n == self.tokens.len(),
                k <= n,
                self@ == before,
                before == old(self)@,
                store_wf(before),
                !token_live(before, token@),
                forall|j: int| 0 <= j < k ==> (#[trigger] before.tokens[j]).subscriber_id != id,
            decreases n - k,
        {
            if self.tokens[k].subscriber_id == id {
                self.tokens[k] = ConfirmationToken { token: String::from_str(token), subscriber_id: id };
                proof {
                    let after = with_rotated_token(before, id, token@);
                    assert forall|j: int| 0 <= j < n && j != k implies (#[trigger] before.tokens[j]).subscriber_id != id by {
                        assert(before.tokens[j].subscriber_id != before.tokens[k as int].subscriber_id);
                    }
                    assert(self@.tokens =~= after.tokens);
                    assert(self@.subscribers =~= after.subscribers);
                    lemma_rotation_keeps_wf(before, id, token@);
                }
                return Ok(());
            }
            k = k + 1;
        }
        proof {
            let after = with_rotated_token(before, id, token@);
            assert(self@.tokens =~= after.tokens);
            lemma_rotation_keeps_wf(before, id, token@);
        }
        Ok(())
    }

    /// Marks subscriber `id` confirmed; a confirmed or unknown id is left as it is.
    pub fn mark_confirmed(&mut self, id: u128)
        requires
            old(self).wf(),
        ensures
            final(self).wf(),
            final(self)@ == with_confirmed(old(self)@, id),
    {
        let ghost before = self@;
        proof {
            lemma_confirm_keeps_wf(before, id);
        }
        let n = self.subscribers.len();
        let mut i: usize = 0;
        while i < n
            invariant
                n == self.subscribers.len(),
                i <= n,
                self@ == before,
                before == old(self)@,
                store_wf(before),
                store_wf(with_confirmed(before, id)),
                forall|j: int| 0 <= j < i ==> (#[trigger] before.subscribers[j]).id != id,
            decreases n - i,
        {
            if self.subscribers[i].id == id {
                self.subscribers[i].status = SubscriptionStatus::Confirmed;
                proof {
                    let after = with_confirmed(before, id);
                    assert forall|j: int| 0 <= j < n && j != i implies (#[trigger] before.subscribers[j]).id != id by {
                        assert(before.subscribers[j].id != before.subscribers[i as int].id);
                    }
                    assert(self@.subscribers =~= after.subscribers);
                    assert(self@.tokens =~= after.tokens);
                    assert(self@ == after);
                }
                return;
            }
            i = i + 1;
        }
        proof {
            let after = with_confirmed(before, id);
            assert(self@.subscribers =~= after.subscribers);
        }
    }

    /// The stored emails of the confirmed subscribers, in row order, as stored.
    pub fn list_confirmed_emails(&self) -> (r: Vec<String>)
        ensures
            r@.map_values(|e: String| e@) == confirmed_emails(self@.subscribers),
    {
        let n = self.subscribers.len();
        let mut r: Vec<String> = Vec::new();
        let mut i: usize = 0;
        while i < n
            invariant
                n == self.subscribers.len(),
                i <= n,
                r@.map_values(|e: String| e@) == confirmed_emails(self@.subscribers.take(i as int)),
            decreases n - i,
        {
            let ghost prev = r@;
            assert(self@.subscribers.take(i as int + 1).drop_last() =~= self@.subscribers.take(i as int));
            if self.subscribers[i].status == SubscriptionStatus::Confirmed {
                r.push(self.subscribers[i].email.clone());
                assert(r@.map_values(|e: String| e@) =~= prev.map_values(|e: String| e@).push(self@.subscribers[i as int].email));
            }
            i = i + 1;
        }
        assert(self@.subscribers.take(n as int) =~= self@.subscribers);
        r
    }

    /// The token value that subscriber `id` owns, if any.
    pub fn token_for(&self, id: u128) -> (r: Option<String>)
        requires
            self.wf(),
        ensures
            r matches Some(t) ==> token_of(self@, id) == Some(t@),
            r is None ==> token_of(self@, id) is None,
    {
        let n = self.tokens.len();
        let mut k: usize = 0;
        while k < n
            invariant
                self.wf(),
                n == self.tokens.len(),
                k <= n,
                forall|j: int| 0 <= j < k ==> (#[trigger] self@.tokens[j]).subscriber_id != id,
            decreases n - k,
        {
            if self.tokens[k].subscriber_id == id {
                proof {
                    assert(self@.tokens[k as int].subscriber_id == id);
                    assert(has_token(self@, id));
                    let l = choose|l: int|
                        0 <= l < self@.tokens.len() && (#[trigger] self@.tokens[l]).subscriber_id == id;
                    assert(self@.tokens[l].subscriber_id == self@.tokens[k as int].subscriber_id);
                }
                return Some(self.tokens[k].token.clone());
            }
            k = k + 1;
        }
        None
    }
}

} // verus!
