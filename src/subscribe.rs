//! Subscriber input, confirmation tokens and the subscription state machine.
use vstd::prelude::*;
use unicode_segmentation::UnicodeSegmentation;
use rand::Rng;
use crate::email::{is_valid_email, EmailAdderess};
use crate::store::{
    create_result, owner_of_token, row_of_email, token_live, with_confirmed,
    with_new_subscriber, with_rotated_token, StoreError, StoreView, SubscriberStore,
};
use crate::text::{blank, is_blank, push_char};
use crate::ValidationError;

verus! {

/// Where a subscriber stands: `Pending` until the address is confirmed.
#[derive(Debug, Clone, Copy, PartialEq, Eq, Structural)]
pub enum SubscriptionStatus {
    Pending,
    Confirmed,
}

impl Default for SubscriptionStatus {
    fn default() -> (r: SubscriptionStatus)
        ensures
            r == SubscriptionStatus::Pending,
    {
        SubscriptionStatus::Pending
    }
}

/// The text under which a status is stored.
pub open spec fn status_text(s: SubscriptionStatus) -> Seq<char> {
    match s {
        SubscriptionStatus::Pending => "Pending"@,
        SubscriptionStatus::Confirmed => "Confirmed"@,
    }
}

impl SubscriptionStatus {
    /// The stored text of this status.
    pub fn as_text(&self) -> (r: String)
        ensures
            r@ == status_text(*self),
    {
        match self {
            SubscriptionStatus::Pending => String::from_str("Pending"),
            SubscriptionStatus::Confirmed => String::from_str("Confirmed"),
        }
    }

    /// Reads a stored status back; any other text is refused.
    pub fn parse(s: &String) -> (r: Option<SubscriptionStatus>)
        ensures
            r matches Some(st) ==> status_text(st) == s@,
            r is None ==> s@ != status_text(SubscriptionStatus::Pending) && s@ != status_text(
                SubscriptionStatus::Confirmed,
            ),
    {
        let pending = String::from_str("Pending");
        let confirmed = String::from_str("Confirmed");
        if *s == pending {
            Some(SubscriptionStatus::Pending)
        } else if *s == confirmed {
            Some(SubscriptionStatus::Confirmed)
        } else {
            None
        }
    }
}

/// Characters that a subscriber name may not hold.
pub open spec fn is_forbidden_name_char(c: char) -> bool {
    c == '/' || c == '(' || c == ')' || c == '"' || c == '<' || c == '>' || c == '\\' || c == '{'
        || c == '}'
}

pub open spec fn has_forbidden_name_char(s: Seq<char>) -> bool {
    exists|i: int| 0 <= i < s.len() && is_forbidden_name_char(#[trigger] s[i])
}

/// The longest name, in user-perceived characters.
pub const MAX_NAME_GRAPHEMES: usize = 256;

/// A name is valid when it is not blank, has at most 256 grapheme clusters and
/// holds no forbidden character.
pub open spec fn name_is_valid(s: Seq<char>, graphemes: nat) -> bool {
    !is_blank(s) && graphemes <= MAX_NAME_GRAPHEMES && !has_forbidden_name_char(s)
}

/// The number of extended grapheme clusters of `s`.
pub uninterp spec fn grapheme_count(s: Seq<char>) -> nat;

/// Relies on `unicode_segmentation::UnicodeSegmentation::graphemes(s, true).count()`:
/// the number of extended grapheme clusters, a function of the text alone.
#[verifier::external_body]
fn count_graphemes(s: &str) -> (r: usize)
    ensures
        r as nat == grapheme_count(s@),
{
    s.graphemes(true).count()
}

/// Whether `s` holds a character that names may not hold.
pub fn has_forbidden_char(s: &str) -> (r: bool)
    ensures
        r == has_forbidden_name_char(s@),
{
    let mut found: bool = false;
    for c in it: s.chars()
        invariant
            it.seq() == s@,
            found == (exists|j: int|
                0 <= j < it.index() && is_forbidden_name_char(#[trigger] s@[j])),
    {
        if c == '/' || c == '(' || c == ')' || c == '"' || c == '<' || c == '>' || c == '\\' || c
            == '{' || c == '}' {
            found = true;
        }
    }
    found
}

/// The name rule, given the name and its number of grapheme clusters.
pub fn check_name(s: &str, graphemes: usize) -> (r: bool)
    ensures
        r == name_is_valid(s@, graphemes as nat),
{
    !blank(s) && graphemes <= MAX_NAME_GRAPHEMES && !has_forbidden_char(s)
}

/// A subscriber's display name that passed validation.
pub struct SubscriberName(String);

impl View for SubscriberName {
    type V = Seq<char>;

    closed spec fn view(&self) -> Seq<char> {
        self.0@
    }
}

impl SubscriberName {
    #[verifier::type_invariant]
    closed spec fn well_formed(self) -> bool {
        name_is_valid(self.0@, grapheme_count(self.0@))
    }

    /// Accepts `s` exactly when it is a valid name.
    pub fn new(s: String) -> (r: Result<SubscriberName, ValidationError>)
        ensures
            r is Ok <==> name_is_valid(s@, grapheme_count(s@)),
            r matches Ok(n) ==> n@ == s@,
            r matches Err(e) ==> e == ValidationError::InvalidName,
    {
        let graphemes = count_graphemes(s.as_str());
        if check_name(s.as_str(), graphemes) {
            Ok(SubscriberName(s))
        } else {
            Err(ValidationError::InvalidName)
        }
    }

    pub fn as_str(&self) -> (r: &str)
        ensures
            r@ == self@,
    {
        self.0.as_str()
    }
}

/// A subscribe request whose name and email passed validation.
pub struct SubscriptionForm {
    pub name: SubscriberName,
    pub email: EmailAdderess,
}

impl SubscriptionForm {
    /// Validates the name, then the email.
    pub fn new(name: String, email: String) -> (r: Result<SubscriptionForm, ValidationError>)
        ensures
            !name_is_valid(name@, grapheme_count(name@)) ==> r == Err::<SubscriptionForm, ValidationError>(
                ValidationError::InvalidName,
            ),
            name_is_valid(name@, grapheme_count(name@)) && !is_valid_email(email@) ==> r
                == Err::<SubscriptionForm, ValidationError>(ValidationError::InvalidEmail),
            r is Ok <==> name_is_valid(name@, grapheme_count(name@)) && is_valid_email(email@),
            r matches Ok(f) ==> f.name@ == name@ && f.email@ == email@,
    {
        let name = match SubscriberName::new(name) {
            Ok(n) => n,
            Err(e) => return Err(e),
        };
        let email = match EmailAdderess::new(email) {
            Ok(e) => e,
            Err(e) => return Err(e),
        };
        Ok(SubscriptionForm { name, email })
    }
}

/// A confirm request.
pub struct SubscriptionConfirmQuery {
    pub token: String,
}

/// The length of a confirmation token.
pub const SUBSCRIPTION_TOKEN_LEN: usize = 26;

/// An ASCII letter or digit.
pub open spec fn is_token_char(c: char) -> bool {
    let u = c as u32;
    (0x30 <= u && u <= 0x39) || (0x41 <= u && u <= 0x5A) || (0x61 <= u && u <= 0x7A)
}

/// A confirmation token: 26 ASCII letters and digits.
pub open spec fn is_token(t: Seq<char>) -> bool {
    t.len() == SUBSCRIPTION_TOKEN_LEN && forall|i: int| 0 <= i < t.len() ==> is_token_char(
        #[trigger] t[i],
    )
}

/// Relies on rand 0.8: `Rng::sample` with the `Alphanumeric` distribution
/// gives a byte drawn uniformly from `A-Z`, `a-z` and `0-9`.
#[verifier::external_body]
fn draw_alphanumeric() -> (r: char)
    ensures
        is_token_char(r),
{
    char::from(rand::thread_rng().sample(rand::distributions::Alphanumeric))
}

/// A random string of `len` ASCII letters and digits.
pub fn subscription_token(len: usize) -> (r: String)
    ensures
        r@.len() == len,
        forall|i: int| 0 <= i < r@.len() ==> is_token_char(#[trigger] r@[i]),
{
    let mut r = String::new();
    let mut i: usize = 0;
    while i < len
        invariant
            i <= len,
            r@.len() == i,
            forall|j: int| 0 <= j < r@.len() ==> is_token_char(#[trigger] r@[j]),
        decreases len - i,
    {
        let c = draw_alphanumeric();
        push_char(&mut r, c);
        i = i + 1;
    }
    r
}

/// `url` with its query set to `query`, or `None` where `url` does not parse.
pub uninterp spec fn url_with_query(url: Seq<char>, query: Seq<char>) -> Option<Seq<char>>;

/// Relies on reqwest's `Url` (the url crate): `Url::parse(url)`, then
/// `set_query(Some(query))`, then the serialised URL; the result depends on
/// the two texts alone.
#[verifier::external_body]
fn set_url_query(url: &str, query: &str) -> (r: Option<String>)
    ensures
        r matches Some(s) ==> url_with_query(url@, query@) == Some(s@),
        r is None ==> url_with_query(url@, query@) is None,
{
    match reqwest::Url::parse(url) {
        Ok(mut u) => {
            u.set_query(Some(query));
            Some(u.to_string())
        },
        Err(_) => None,
    }
}

/// The query that carries a confirmation token.
pub open spec fn token_query(token: Seq<char>) -> Seq<char> {
    "token="@ + token
}

/// The confirmation URL for `token`: `endpoint` with the token as its query.
pub fn confirmation_link(endpoint: &str, token: &str) -> (r: Option<String>)
    ensures
        r matches Some(l) ==> url_with_query(endpoint@, token_query(token@)) == Some(l@),
        r is None ==> url_with_query(endpoint@, token_query(token@)) is None,
{
    let mut query = String::from_str("token=");
    query.append(token);
    set_url_query(endpoint, query.as_str())
}

pub open spec fn confirmation_subject() -> Seq<char> {
    "Newsletter subscription confirmation"@
}

pub open spec fn confirmation_text(link: Seq<char>) -> Seq<char> {
    "Open the link to confirm your newsletter subscription. "@ + link
}

pub open spec fn confirmation_html(link: Seq<char>) -> Seq<char> {
    "<p>Open the link to confirm your newsletter subscription.<br /><a href='"@ + link + "'>"@
        + link + "</a></p>"@
}

/// A confirmation email that is to be sent.
pub struct ConfirmationEmail {
    pub to: EmailAdderess,
    pub token: String,
    pub link: String,
    pub subject: String,
    pub text_body: String,
    pub html_body: String,
}

/// `c` is the confirmation email for `token` to `email`, linking to `link`.
pub open spec fn is_confirmation(
    c: ConfirmationEmail,
    email: Seq<char>,
    token: Seq<char>,
    link: Seq<char>,
) -> bool {
    &&& c.to@ == email
    &&& c.token@ == token
    &&& c.link@ == link
    &&& c.subject@ == confirmation_subject()
    &&& c.text_body@ == confirmation_text(link)
    &&& c.html_body@ == confirmation_html(link)
}

/// The confirmation email for `token` to `to`, linking to `link`.
pub fn confirmation_email(to: &EmailAdderess, token: &str, link: &str) -> (r: ConfirmationEmail)
    ensures
        is_confirmation(r, to@, token@, link@),
{
    let subject = String::from_str("Newsletter subscription confirmation");
    let mut text_body = String::from_str("Open the link to confirm your newsletter subscription. ");
    text_body.append(link);
    let mut html_body = String::from_str(
        "<p>Open the link to confirm your newsletter subscription.<br /><a href='",
    );
    html_body.append(link);
    html_body.append("'>");
    html_body.append(link);
    html_body.append("</a></p>");
    ConfirmationEmail {
        to: to.clone(),
        token: String::from_str(token),
        link: String::from_str(link),
        subject,
        text_body,
        html_body,
    }
}

/// What a subscribe request came to.
#[derive(Debug, Clone, Copy, PartialEq, Eq, Structural)]
pub enum SubscribeOutcome {
    /// The email is confirmed already: nothing was written and nothing is sent.
    AlreadyConfirmed,
    /// A new pending subscriber was stored; its confirmation is to be sent.
    ConfirmationSent,
    /// The pending subscriber got a new token; its confirmation is to be sent again.
    ConfirmationResent,
}

/// Why a subscribe or confirm request failed.
#[derive(Debug, Clone, Copy, PartialEq, Eq, Structural)]
pub enum ServiceError {
    /// The name or the email was refused; nothing was written.
    InvalidInput(ValidationError),
    /// Another request created a subscriber with this email first.
    Conflict,
    /// No subscriber owns the token.
    NotFound,
    /// The confirmation email could not be sent.
    SendFailure,
    /// A storage or configuration fault.
    Unexpected,
}

/// The answer to a subscribe request that succeeded.
pub struct SubscribeReply {
    pub outcome: SubscribeOutcome,
    /// The email that the caller is to send, where one is due.
    pub confirmation: Option<ConfirmationEmail>,
}

/// What a subscribe request is to do, decided from what the store holds for
/// its email when it is looked up.
#[derive(Debug, Clone, Copy, PartialEq, Eq, Structural)]
pub enum SubscribePlan {
    /// The email is confirmed: nothing to write, nothing to send.
    AlreadyConfirmed,
    /// The email is pending under this subscriber id: rotate its token, resend.
    Resend(u128),
    /// The email is unknown: create the subscriber with its first token, send.
    Create,
}

/// The plan for `email` in the store `s`.
pub open spec fn plan_of(s: StoreView, email: Seq<char>) -> SubscribePlan {
    match row_of_email(s, email) {
        Some(row) => if row.status == SubscriptionStatus::Confirmed {
            SubscribePlan::AlreadyConfirmed
        } else {
            SubscribePlan::Resend(row.id)
        },
        None => SubscribePlan::Create,
    }
}

/// The store and the result after carrying out `plan` for `email` with a
/// fresh `token`, `id` and time `now`. The store may have changed since the
/// plan was made: a creation that finds the email taken is a `Conflict`.
pub open spec fn execute_transition(
    s: StoreView,
    plan: SubscribePlan,
    name: Seq<char>,
    email: Seq<char>,
    token: Seq<char>,
    id: u128,
    now: i64,
) -> (StoreView, Result<SubscribeOutcome, ServiceError>) {
    match plan {
        SubscribePlan::AlreadyConfirmed => (s, Ok(SubscribeOutcome::AlreadyConfirmed)),
        SubscribePlan::Resend(sid) => if token_live(s, token) {
            (s, Err(ServiceError::Unexpected))
        } else {
            (with_rotated_token(s, sid, token), Ok(SubscribeOutcome::ConfirmationResent))
        },
        SubscribePlan::Create => match create_result(s, id, email, token) {
            Ok(_) => (
                with_new_subscriber(s, id, name, email, token, now),
                Ok(SubscribeOutcome::ConfirmationSent),
            ),
            Err(StoreError::Conflict) => (s, Err(ServiceError::Conflict)),
            Err(StoreError::DuplicateKey) => (s, Err(ServiceError::Unexpected)),
        },
    }
}

/// The store and the result after subscribing `email` in one step: looked up
/// and carried out against the same store.
pub open spec fn subscribe_transition(
    s: StoreView,
    name: Seq<char>,
    email: Seq<char>,
    token: Seq<char>,
    id: u128,
    now: i64,
) -> (StoreView, Result<SubscribeOutcome, ServiceError>) {
    execute_transition(s, plan_of(s, email), name, email, token, id, now)
}

/// `r` answers as `expected` says, with the confirmation email for `token`
/// and `link` exactly where one is due.
pub open spec fn reply_agrees(
    r: Result<SubscribeReply, ServiceError>,
    expected: Result<SubscribeOutcome, ServiceError>,
    email: Seq<char>,
    token: Seq<char>,
    link: Seq<char>,
) -> bool {
    match r {
        Ok(reply) => {
            &&& expected == Ok::<SubscribeOutcome, ServiceError>(reply.outcome)
            &&& (reply.outcome == SubscribeOutcome::AlreadyConfirmed <==> reply.confirmation is None)
            &&& (reply.confirmation matches Some(c) ==> is_confirmation(c, email, token, link))
        },
        Err(e) => expected == Err::<SubscribeOutcome, ServiceError>(e),
    }
}

/// Looks the request's email up and decides what is to be done.
pub fn plan_subscribe(store: &SubscriberStore, form: &SubscriptionForm) -> (r: SubscribePlan)
    requires
        store.wf(),
    ensures
        r == plan_of(store@, form.email@),
{
    match store.find_by_email(form.email.as_str()) {
        Some((_, SubscriptionStatus::Confirmed)) => SubscribePlan::AlreadyConfirmed,
        Some((existing, SubscriptionStatus::Pending)) => SubscribePlan::Resend(existing),
        None => SubscribePlan::Create,
    }
}

/// Carries out `plan`: a pending subscriber gets `token` in place of its old
/// token; a new one is stored as pending with `token`, under `id`, at time
/// `now`, unless another request created it first. The reply carries the
/// confirmation email, linking to `link`, that is then due.
pub fn execute_subscribe(
    store: &mut SubscriberStore,
    plan: SubscribePlan,
    form: &SubscriptionForm,
    token: &str,
    id: u128,
    now: i64,
    link: &str,
) -> (r: Result<SubscribeReply, ServiceError>)
    requires
        old(store).wf(),
    ensures
        final(store).wf(),
        final(store)@ == execute_transition(old(store)@, plan, form.name@, form.email@, token@, id, now).0,
        reply_agrees(
            r,
            execute_transition(old(store)@, plan, form.name@, form.email@, token@, id, now).1,
            form.email@,
            token@,
            link@,
        ),
{
    match plan {
        SubscribePlan::AlreadyConfirmed => {
            Ok(SubscribeReply { outcome: SubscribeOutcome::AlreadyConfirmed, confirmation: None })
        },
        SubscribePlan::Resend(existing) => {
            match store.rotate_token(existing, token) {
                Ok(()) => Ok(
                    SubscribeReply {
                        outcome: SubscribeOutcome::ConfirmationResent,
                        confirmation: Some(confirmation_email(&form.email, token, link)),
                    },
                ),
                Err(_) => Err(ServiceError::Unexpected),
            }
        },
        SubscribePlan::Create => {
            match store.create_subscriber_with_token(id, &form.name, &form.email, token, now) {
                Ok(_) => Ok(
                    SubscribeReply {
                        outcome: SubscribeOutcome::ConfirmationSent,
                        confirmation: Some(confirmation_email(&form.email, token, link)),
                    },
                ),
                Err(StoreError::Conflict) => Err(ServiceError::Conflict),
                Err(StoreError::DuplicateKey) => Err(ServiceError::Unexpected),
            }
        },
    }
}

/// Subscribes a validated request in one step, as `plan_subscribe` and then
/// `execute_subscribe` against the same store.
pub fn apply_subscribe(
    store: &mut SubscriberStore,
    form: &SubscriptionForm,
    token: &str,
    id: u128,
    now: i64,
    link: &str,
) -> (r: Result<SubscribeReply, ServiceError>)
    requires
        old(store).wf(),
    ensures
        final(store).wf(),
        final(store)@ == subscribe_transition(old(store)@, form.name@, form.email@, token@, id, now).0,
        reply_agrees(
            r,
            subscribe_transition(old(store)@, form.name@, form.email@, token@, id, now).1,
            form.email@,
            token@,
            link@,
        ),
{
    let plan = plan_subscribe(store, form);
    execute_subscribe(store, plan, form, token, id, now, link)
}

/// A confirmed email is answered as such, with nothing written and nothing
/// to send. Otherwise, where the link cannot be built the request fails as
/// `Unexpected` and nothing changes; else the store and the reply are as
/// `execute_transition` and `reply_agrees` say.
pub open spec fn execute_agrees(
    before: StoreView,
    after: StoreView,
    r: Result<SubscribeReply, ServiceError>,
    plan: SubscribePlan,
    name: Seq<char>,
    email: Seq<char>,
    endpoint: Seq<char>,
    token: Seq<char>,
    id: u128,
    now: i64,
) -> bool {
    if plan == SubscribePlan::AlreadyConfirmed {
        &&& after == before
        &&& r matches Ok(reply) && reply.outcome == SubscribeOutcome::AlreadyConfirmed
            && reply.confirmation is None
    } else {
        match url_with_query(endpoint, token_query(token)) {
            None => r is Err && r->Err_0 == ServiceError::Unexpected && after == before,
        Some(link) => {
            &&& after == execute_transition(before, plan, name, email, token, id, now).0
            &&& reply_agrees(r, execute_transition(before, plan, name, email, token, id, now).1, email, token, link)
        },
        }
    }
}

/// Subscribes `name` and `email` in one step: both are validated first, and
/// where a confirmation is due its link is built from `confirm_endpoint`
/// before anything is written; then as `apply_subscribe`.
pub fn subscribe(
    store: &mut SubscriberStore,
    name: String,
    email: String,
    token: &str,
    id: u128,
    now: i64,
    confirm_endpoint: &str,
) -> (r: Result<SubscribeReply, ServiceError>)
    requires
        old(store).wf(),
    ensures
        final(store).wf(),
        !name_is_valid(name@, grapheme_count(name@)) ==> r is Err && r->Err_0
            == ServiceError::InvalidInput(ValidationError::InvalidName) && final(store)@ == old(
            store,
        )@,
        name_is_valid(name@, grapheme_count(name@)) && !is_valid_email(email@) ==> r is Err
            && r->Err_0 == ServiceError::InvalidInput(ValidationError::InvalidEmail)
            && final(store)@ == old(store)@,
        name_is_valid(name@, grapheme_count(name@)) && is_valid_email(email@) ==> execute_agrees(
            old(store)@,
            final(store)@,
            r,
            plan_of(old(store)@, email@),
            name@,
            email@,
            confirm_endpoint@,
            token@,
            id,
            now,
        ),
{
    let form = match SubscriptionForm::new(name, email) {
        Ok(f) => f,
        Err(e) => return Err(ServiceError::InvalidInput(e)),
    };
    let plan = plan_subscribe(store, &form);
    if plan == SubscribePlan::AlreadyConfirmed {
        return Ok(SubscribeReply { outcome: SubscribeOutcome::AlreadyConfirmed, confirmation: None });
    }
    let link = match confirmation_link(confirm_endpoint, token) {
        Some(l) => l,
        None => return Err(ServiceError::Unexpected),
    };
    execute_subscribe(store, plan, &form, token, id, now, link.as_str())
}

/// Relies on `uuid::Uuid::new_v4`: a random id, of which nothing is promised.
#[verifier::external_body]
fn new_subscriber_id() -> (r: u128) {
    uuid::Uuid::new_v4().as_u128()
}

/// Relies on `chrono::Utc::now`: the time now, in microseconds since the Unix
/// epoch, of which nothing is promised.
#[verifier::external_body]
fn now_micros() -> (r: i64) {
    chrono::Utc::now().timestamp_micros()
}

/// Carries out `plan` with a freshly drawn token, id and time, and, where a
/// confirmation is due, a link built from `confirm_endpoint` before anything
/// is written: as `execute_subscribe` for some token of 26 letters and digits.
pub fn execute_subscribe_fresh(
    store: &mut SubscriberStore,
    plan: SubscribePlan,
    form: &SubscriptionForm,
    confirm_endpoint: &str,
) -> (r: Result<SubscribeReply, ServiceError>)
    requires
        old(store).wf(),
    ensures
        final(store).wf(),
        exists|token: Seq<char>, id: u128, now: i64|
            is_token(token) && #[trigger] execute_agrees(
                old(store)@,
                final(store)@,
                r,
                plan,
                form.name@,
                form.email@,
                confirm_endpoint@,
                token,
                id,
                now,
            ),
{
    let ghost before = store@;
    let token = subscription_token(SUBSCRIPTION_TOKEN_LEN);
    let id = new_subscriber_id();
    let now = now_micros();
    let r = if plan == SubscribePlan::AlreadyConfirmed {
        Ok(SubscribeReply { outcome: SubscribeOutcome::AlreadyConfirmed, confirmation: None })
    } else {
        match confirmation_link(confirm_endpoint, token.as_str()) {
            Some(link) => execute_subscribe(store, plan, form, token.as_str(), id, now, link.as_str()),
            None => Err(ServiceError::Unexpected),
        }
    };
    assert(is_token(token@));
    assert(execute_agrees(before, store@, r, plan, form.name@, form.email@, confirm_endpoint@, token@, id, now));
    r
}

/// The store and the result after confirming with `token`.
pub open spec fn confirm_transition(s: StoreView, token: Seq<char>) -> (StoreView, Result<u128, ServiceError>) {
    match owner_of_token(s, token) {
        Some(id) => (with_confirmed(s, id), Ok(id)),
        None => (s, Err(ServiceError::NotFound)),
    }
}

/// Confirms the subscriber that owns `token` and answers its id; an unknown
/// token is `NotFound` and changes nothing. Confirming twice is harmless.
pub fn subscribe_confirm(store: &mut SubscriberStore, token: &str) -> (r: Result<u128, ServiceError>)
    requires
        old(store).wf(),
    ensures
        final(store).wf(),
        final(store)@ == confirm_transition(old(store)@, token@).0,
        r == confirm_transition(old(store)@, token@).1,
{
    match store.find_subscriber_id_by_token(token) {
        Some(id) => {
            store.mark_confirmed(id);
            Ok(id)
        },
        None => Err(ServiceError::NotFound),
    }
}

} // verus!
