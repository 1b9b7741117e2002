//! A repository of subscribers and tokens held in memory, with the rules a
//! persistent store of the service keeps: one subscriber per address, one
//! subscriber per token, a token only for an existing subscriber, and a
//! status that only moves from pending to confirmed.
use crate::domain::{NewSubscriber, SubscriberId};
use crate::subscriptions_confirm::{ConfirmAction, ConfirmEvent, ConfirmFlow, ConfirmOutcome, Parameters};
use vstd::prelude::*;
use vstd::string::*;

verus! {

/// Where a subscriber stands.
#[derive(PartialEq, Eq, Structural, Clone, Copy, Debug)]
pub enum SubscriptionStatus {
    PendingConfirmation,
    Confirmed,
}

/// The text a status is stored as.
pub open spec fn status_text(s: SubscriptionStatus) -> Seq<char> {
    match s {
        SubscriptionStatus::PendingConfirmation => "pending_confirmation"@,
        SubscriptionStatus::Confirmed => "confirmed"@,
    }
}

impl SubscriptionStatus {
    pub fn as_str(&self) -> (r: &'static str)
        ensures
            r@ == status_text(*self),
    {
        match self {
            SubscriptionStatus::PendingConfirmation => "pending_confirmation",
            SubscriptionStatus::Confirmed => "confirmed",
        }
    }
}

/// A write the store refused.
#[derive(PartialEq, Eq, Structural, Clone, Copy, Debug)]
pub struct StorageError;

/// A subscriber as the store holds it.
#[derive(Debug)]
pub struct SubscriberRecord {
    pub id: SubscriberId,
    pub email: String,
    pub name: String,
    /// Seconds since the Unix epoch.
    pub subscribed_at: i64,
    pub status: SubscriptionStatus,
}

/// A token and the subscriber it was issued to.
#[derive(Debug)]
pub struct TokenRecord {
    pub token: String,
    pub subscriber_id: SubscriberId,
}

/// What the store says of one subscriber.
pub struct SubscriberRow {
    pub email: Seq<char>,
    pub name: Seq<char>,
    /// Seconds since the Unix epoch.
    pub subscribed_at: i64,
    pub status: SubscriptionStatus,
}

pub open spec fn row_of(r: SubscriberRecord) -> SubscriberRow {
    SubscriberRow {
        email: r.email@,
        name: r.name@,
        subscribed_at: r.subscribed_at,
        status: r.status,
    }
}

/// The contents of the store: subscribers by id, and the subscriber of each token.
pub struct StoreModel {
    pub subscribers: Map<SubscriberId, SubscriberRow>,
    pub tokens: Map<Seq<char>, SubscriberId>,
}

impl StoreModel {
    /// Every token belongs to a subscriber, and no two subscribers share an address.
    pub open spec fn wf(self) -> bool {
        &&& forall|t: Seq<char>| #[trigger]
            self.tokens.contains_key(t) ==> self.subscribers.contains_key(self.tokens[t])
        &&& forall|a: SubscriberId, b: SubscriberId|
            #![trigger self.subscribers[a], self.subscribers[b]]
            self.subscribers.contains_key(a) && self.subscribers.contains_key(b) && a != b
                ==> self.subscribers[a].email != self.subscribers[b].email
    }

    pub open spec fn email_taken(self, email: Seq<char>) -> bool {
        exists|id: SubscriberId| #[trigger]
            self.subscribers.contains_key(id) && self.subscribers[id].email == email
    }

    /// The store after a new subscriber, pending confirmation, was added.
    pub open spec fn with_subscriber(
        self,
        id: SubscriberId,
        email: Seq<char>,
        name: Seq<char>,
        subscribed_at: i64,
    ) -> StoreModel {
        StoreModel {
            subscribers: self.subscribers.insert(
                id,
                SubscriberRow {
                    email,
                    name,
                    subscribed_at,
                    status: SubscriptionStatus::PendingConfirmation,
                },
            ),
            tokens: self.tokens,
        }
    }

    /// The store after subscriber `id` was marked confirmed.
    pub open spec fn with_confirmed(self, id: SubscriberId) -> StoreModel {
        StoreModel {
            subscribers: self.subscribers.insert(
                id,
                SubscriberRow { status: SubscriptionStatus::Confirmed, ..self.subscribers[id] },
            ),
            tokens: self.tokens,
        }
    }
}

/// The text of the token in a confirmation query, if there is one.
pub open spec fn query_token(parameters: Option<Parameters>) -> Option<Seq<char>> {
    match parameters {
        Some(p) => Some(p.subscription_token@),
        None => None,
    }
}

/// The answer to a confirmation with `token`, and the store after it.
pub open spec fn confirm_effect(v: StoreModel, token: Option<Seq<char>>) -> (ConfirmOutcome, StoreModel) {
    match token {
        None => (ConfirmOutcome::BadRequest, v),
        Some(t) => if !v.tokens.contains_key(t) {
            (ConfirmOutcome::BadRequest, v)
        } else if v.subscribers.contains_key(v.tokens[t]) {
            (ConfirmOutcome::Confirmed, v.with_confirmed(v.tokens[t]))
        } else {
            (ConfirmOutcome::ServerError, v)
        },
    }
}

/// Relies on `uuid::Uuid::new_v4`, read as its 128 bits: a random id, of which
/// nothing is promised.
#[verifier::external_body]
fn new_subscriber_id() -> (r: SubscriberId) {
    SubscriberId(uuid::Uuid::new_v4().as_u128())
}

/// Relies on `chrono::Utc::now`, read as seconds since the Unix epoch: the
/// clock, of which nothing is promised.
#[verifier::external_body]
fn now_timestamp() -> (r: i64) {
    chrono::Utc::now().timestamp()
}

/// Subscribers and tokens in memory.
pub struct SubscriptionStore {
    subscribers: Vec<SubscriberRecord>,
    tokens: Vec<TokenRecord>,
    model: Ghost<StoreModel>,
}

impl View for SubscriptionStore {
    type V = StoreModel;

    closed spec fn view(&self) -> StoreModel {
        self.model@
    }
}

impl SubscriptionStore {
    /// The records agree with the model, and the model is well formed.
    pub closed spec fn wf(&self) -> bool {
        let m = self.model@;
        &&& m.wf()
        &&& forall|i: int|
            0 <= i < self.subscribers.len() ==> m.subscribers.contains_key(
                #[trigger] self.subscribers[i].id,
            ) && m.subscribers[self.subscribers[i].id] == row_of(self.subscribers[i])
        &&& forall|id: SubscriberId| #[trigger]
            m.subscribers.contains_key(id) ==> exists|i: int|
                0 <= i < self.subscribers.len() && #[trigger] self.subscribers[i].id == id
        &&& forall|i: int, j: int|
            0 <= i < self.subscribers.len() && 0 <= j < self.subscribers.len() && i != j
                ==> #[trigger] self.subscribers[i].id != #[trigger] self.subscribers[j].id
        &&& forall|i: int|
            0 <= i < self.tokens.len() ==> m.tokens.contains_key(#[trigger] self.tokens[i].token@)
                && m.tokens[self.tokens[i].token@] == self.tokens[i].subscriber_id
        &&& forall|t: Seq<char>| #[trigger]
            m.tokens.contains_key(t) ==> exists|i: int|
                0 <= i < self.tokens.len() && #[trigger] self.tokens[i].token@ == t
    }

    /// An empty store.
    pub fn new() -> (r: SubscriptionStore)
        ensures
            r.wf(),
            r@.wf(),
            r@.subscribers == Map::<SubscriberId, SubscriberRow>::empty(),
            r@.tokens == Map::<Seq<char>, SubscriberId>::empty(),
    {
        SubscriptionStore {
            subscribers: Vec::new(),
            tokens: Vec::new(),
            model: Ghost(StoreModel { subscribers: Map::empty(), tokens: Map::empty() }),
        }
    }

    fn index_of_id(&self, id: SubscriberId) -> (r: Option<usize>)
        requires
            self.wf(),
        ensures
            match r {
                Some(i) => i < self.subscribers.len() && self.subscribers[i as int].id == id,
                None => !self@.subscribers.contains_key(id),
            },
    {
        let mut i: usize = 0;
        while i < self.subscribers.len()
            invariant
                i <= self.subscribers.len(),
                forall|j: int| 0 <= j < i ==> self.subscribers[j].id != id,
            decreases self.subscribers.len() - i,
        {
            if self.subscribers[i].id == id {
                return Some(i);
            }
            i = i + 1;
        }
        None
    }

    fn index_of_email(&self, email: &String) -> (r: Option<usize>)
        requires
            self.wf(),
        ensures
            match r {
                Some(i) => i < self.subscribers.len() && self.subscribers[i as int].email@
                    == email@,
                None => !self@.email_taken(email@),
            },
    {
        let mut i: usize = 0;
        while i < self.subscribers.len()
            invariant
                i <= self.subscribers.len(),
                forall|j: int| 0 <= j < i ==> self.subscribers[j].email@ != email@,
            decreases self.subscribers.len() - i,
        {
            if self.subscribers[i].email.eq(email) {
                return Some(i);
            }
            i = i + 1;
        }
        None
    }
    fn index_of_token(&self, token: &String) -> (r: Option<usize>)
        requires
            self.wf(),
        ensures
            match r {
                Some(i) => i < self.tokens.len() && self.tokens[i as int].token@ == token@,
                None => !self@.tokens.contains_key(token@),
            },
    {
        let mut i: usize = 0;
        while i < self.tokens.len()
            invariant
                i <= self.tokens.len(),
                forall|j: int| 0 <= j < i ==> self.tokens[j].token@ != token@,
            decreases self.tokens.len() - i,
        {
            if self.tokens[i].token.eq(token) {
                return Some(i);
            }
            i = i + 1;
        }
        None
    }

    /// Adds subscriber `id`, pending confirmation. Refused when the id or the
    /// address is already there.
    pub fn insert_subscriber_with_id(
        &mut self,
        id: SubscriberId,
        new_subscriber: &NewSubscriber,
        subscribed_at: i64,
    ) -> (r: Result<(), StorageError>)
        requires
            old(self).wf(),
        ensures
            final(self).wf(),
            final(self)@.wf(),
            r is Err <==> old(self)@.subscribers.contains_key(id) || old(self)@.email_taken(
                new_subscriber.email@,
            ),
            r is Ok ==> final(self)@ == old(self)@.with_subscriber(
                id,
                new_subscriber.email@,
                new_subscriber.name@,
                subscribed_at,
            ),
            r is Err ==> final(self)@ == old(self)@,
    {
        let email = String::from_str(new_subscriber.email.as_str());
        if self.index_of_id(id).is_some() || self.index_of_email(&email).is_some() {
            proof {
                if !self@.subscribers.contains_key(id) {
                    let i = choose|i: int|
                        0 <= i < self.subscribers.len() && self.subscribers[i].email@ == email@;
                    assert(self@.subscribers.contains_key(self.subscribers[i].id));
                }
            }
            return Err(StorageError);
        }
        let record = SubscriberRecord {
            id,
            email,
            name: String::from_str(new_subscriber.name.as_str()),
            subscribed_at,
            status: SubscriptionStatus::PendingConfirmation,
        };
        let ghost old_store = *self;
        self.subscribers.push(record);
        self.model = Ghost(
            old_store@.with_subscriber(
                id,
                new_subscriber.email@,
                new_subscriber.name@,
                subscribed_at,
            ),
        );
        proof {
            let m = self.model@;
            assert forall|i: int| 0 <= i < old_store.subscribers.len() implies #[trigger] old_store.subscribers[i].id != id by {
                assert(old_store@.subscribers.contains_key(old_store.subscribers[i].id));
            }
            assert forall|sid: SubscriberId| #[trigger]
                m.subscribers.contains_key(sid) implies exists|i: int|
                0 <= i < self.subscribers.len() && #[trigger] self.subscribers[i].id == sid by {
                if sid == id {
                    assert(self.subscribers[self.subscribers.len() - 1].id == sid);
                } else {
                    let i = choose|i: int|
                        0 <= i < old_store.subscribers.len() && #[trigger] old_store.subscribers[i].id == sid;
                    assert(self.subscribers[i].id == sid);
                }
            }
            assert forall|a: SubscriberId, b: SubscriberId|
                #![trigger m.subscribers[a], m.subscribers[b]]
                m.subscribers.contains_key(a) && m.subscribers.contains_key(b) && a != b
                    implies m.subscribers[a].email != m.subscribers[b].email by {
                if a == id {
                    assert(old_store@.subscribers.contains_key(b));
                } else if b == id {
                    assert(old_store@.subscribers.contains_key(a));
                }
            }
            assert forall|t: Seq<char>| #[trigger]
                m.tokens.contains_key(t) implies m.subscribers.contains_key(m.tokens[t]) by {
                assert(old_store@.subscribers.contains_key(old_store@.tokens[t]));
            }
            assert forall|u: Seq<char>| #[trigger]
                m.tokens.contains_key(u) implies exists|k: int|
                0 <= k < self.tokens.len() && #[trigger] self.tokens[k].token@ == u by {
                let k = choose|k: int|
                    0 <= k < old_store.tokens.len() && #[trigger] old_store.tokens[k].token@ == u;
                assert(self.tokens[k].token@ == u);
            }
            assert forall|i: int|
                0 <= i < self.subscribers.len() implies m.subscribers.contains_key(
                #[trigger] self.subscribers[i].id,
            ) && m.subscribers[self.subscribers[i].id] == row_of(self.subscribers[i]) by {
                if i < old_store.subscribers.len() {
                    assert(self.subscribers[i] == old_store.subscribers[i]);
                }
            }
            assert forall|i: int, j: int|
                0 <= i < self.subscribers.len() && 0 <= j < self.subscribers.len() && i != j
                    implies #[trigger] self.subscribers[i].id != #[trigger] self.subscribers[j].id by {
                if i < old_store.subscribers.len() && j < old_store.subscribers.len() {
                    assert(old_store.subscribers[i].id != old_store.subscribers[j].id);
                }
            }
        }
        Ok(())
    }

    /// Adds a subscriber, pending confirmation, under a fresh random id and
    /// the current time, and returns the id. Refused when the address is
    /// already there (or, against all odds, the id). On a store without
    /// subscribers it succeeds.
    pub fn insert_subscriber(&mut self, new_subscriber: &NewSubscriber) -> (r: Result<
        SubscriberId,
        StorageError,
    >)
        requires
            old(self).wf(),
        ensures
            final(self).wf(),
            final(self)@.wf(),
            old(self)@.email_taken(new_subscriber.email@) ==> r is Err,
            old(self)@.subscribers.dom() == Set::<SubscriberId>::empty() ==> r is Ok,
            r is Err ==> old(self)@.email_taken(new_subscriber.email@) || exists|k: SubscriberId|
                #[trigger] old(self)@.subscribers.contains_key(k),
            r matches Ok(id) ==> !old(self)@.subscribers.contains_key(id) && final(self)@
                == old(self)@.with_subscriber(
                id,
                new_subscriber.email@,
                new_subscriber.name@,
                final(self)@.subscribers[id].subscribed_at,
            ),
            r is Err ==> final(self)@ == old(self)@,
    {
        let id = new_subscriber_id();
        let subscribed_at = now_timestamp();
        proof {
            if old(self)@.subscribers.dom() == Set::<SubscriberId>::empty() {
                assert(!old(self)@.subscribers.contains_key(id));
                assert(!old(self)@.email_taken(new_subscriber.email@)) by {
                    if old(self)@.email_taken(new_subscriber.email@) {
                        let k = choose|k: SubscriberId| #[trigger]
                            old(self)@.subscribers.contains_key(k)
                                && old(self)@.subscribers[k].email == new_subscriber.email@;
                        assert(old(self)@.subscribers.dom().contains(k));
                    }
                }
            }
        }
        match self.insert_subscriber_with_id(id, new_subscriber, subscribed_at) {
            Ok(()) => {
                assert(self@ == old(self)@.with_subscriber(
                    id,
                    new_subscriber.email@,
                    new_subscriber.name@,
                    subscribed_at,
                ));
                Ok(id)
            },
            Err(e) => Err(e),
        }
    }

    /// Records `subscription_token` for subscriber `subscriber_id`. Refused
    /// when there is no such subscriber or the token is already taken.
    pub fn store_token(&mut self, subscriber_id: SubscriberId, subscription_token: &str) -> (r:
        Result<(), StorageError>)
        requires
            old(self).wf(),
        ensures
            final(self).wf(),
            final(self)@.wf(),
            r is Err <==> !old(self)@.subscribers.contains_key(subscriber_id) || old(
                self,
            )@.tokens.contains_key(subscription_token@),
            r is Ok ==> final(self)@ == (StoreModel {
                subscribers: old(self)@.subscribers,
                tokens: old(self)@.tokens.insert(subscription_token@, subscriber_id),
            }),
            r is Err ==> final(self)@ == old(self)@,
    {
        let token = String::from_str(subscription_token);
        if self.index_of_id(subscriber_id).is_none() || self.index_of_token(&token).is_some() {
            return Err(StorageError);
        }
        let ghost old_store = *self;
        let ghost t = token@;
        self.tokens.push(TokenRecord { token, subscriber_id });
        self.model = Ghost(
            StoreModel {
                subscribers: old_store@.subscribers,
                tokens: old_store@.tokens.insert(t, subscriber_id),
            },
        );
        proof {
            let m = self.model@;
            assert forall|u: Seq<char>| #[trigger]
                m.tokens.contains_key(u) implies exists|i: int|
                0 <= i < self.tokens.len() && #[trigger] self.tokens[i].token@ == u by {
                if u == t {
                    assert(self.tokens[self.tokens.len() - 1].token@ == u);
                } else {
                    let i = choose|i: int|
                        0 <= i < old_store.tokens.len() && #[trigger] old_store.tokens[i].token@ == u;
                    assert(self.tokens[i].token@ == u);
                }
            }
            assert forall|i: int| 0 <= i < self.tokens.len() implies m.tokens.contains_key(
                #[trigger] self.tokens[i].token@,
            ) && m.tokens[self.tokens[i].token@] == self.tokens[i].subscriber_id by {
                if i < old_store.tokens.len() {
                    assert(old_store@.tokens.contains_key(old_store.tokens[i].token@));
                }
            }
        }
        Ok(())
    }

    /// The subscriber a token was issued to, if it was.
    pub fn find_subscriber_id_by_token(&self, subscription_token: &str) -> (r: Option<
        SubscriberId,
    >)
        requires
            self.wf(),
        ensures
            r == (if self@.tokens.contains_key(subscription_token@) {
                Some(self@.tokens[subscription_token@])
            } else {
                None
            }),
    {
        let token = String::from_str(subscription_token);
        match self.index_of_token(&token) {
            Some(i) => Some(self.tokens[i].subscriber_id),
            None => None,
        }
    }

    /// Sets subscriber `id`'s status to confirmed; a confirmed subscriber
    /// stays as it is. Refused when there is no such subscriber.
    pub fn mark_confirmed(&mut self, id: SubscriberId) -> (r: Result<(), StorageError>)
        requires
            old(self).wf(),
        ensures
            final(self).wf(),
            final(self)@.wf(),
            r is Err <==> !old(self)@.subscribers.contains_key(id),
            r is Ok ==> final(self)@ == old(self)@.with_confirmed(id),
            r is Err ==> final(self)@ == old(self)@,
    {
        match self.index_of_id(id) {
            None => Err(StorageError),
            Some(i) => {
                let record = SubscriberRecord {
                    id,
                    email: self.subscribers[i].email.clone(),
                    name: self.subscribers[i].name.clone(),
                    subscribed_at: self.subscribers[i].subscribed_at,
                    status: SubscriptionStatus::Confirmed,
                };
                let ghost old_store = *self;
                self.subscribers.set(i, record);
                self.model = Ghost(old_store@.with_confirmed(id));
                proof {
                    let m = self.model@;
                    assert(old_store@.subscribers.contains_key(id));
                    assert forall|sid: SubscriberId| #[trigger]
                        m.subscribers.contains_key(sid) implies exists|j: int|
                        0 <= j < self.subscribers.len() && #[trigger] self.subscribers[j].id == sid by {
                        let j = choose|j: int|
                            0 <= j < old_store.subscribers.len() && #[trigger] old_store.subscribers[j].id == sid;
                        assert(self.subscribers[j].id == sid);
                    }
                    assert forall|a: SubscriberId, b: SubscriberId|
                        #![trigger m.subscribers[a], m.subscribers[b]]
                        m.subscribers.contains_key(a) && m.subscribers.contains_key(b) && a != b
                            implies m.subscribers[a].email != m.subscribers[b].email by {
                        assert(old_store@.subscribers[a] == old_store@.subscribers[a]);
                        assert(old_store@.subscribers[b] == old_store@.subscribers[b]);
                    }
                    assert forall|j: int|
                        0 <= j < self.subscribers.len() implies m.subscribers.contains_key(
                        #[trigger] self.subscribers[j].id,
                    ) && m.subscribers[self.subscribers[j].id] == row_of(self.subscribers[j]) by {
                        if j != i {
                            assert(self.subscribers[j] == old_store.subscribers[j]);
                            assert(old_store.subscribers[j].id != old_store.subscribers[i as int].id);
                        }
                    }
                    assert forall|j: int, k: int|
                        0 <= j < self.subscribers.len() && 0 <= k < self.subscribers.len() && j != k
                            implies #[trigger] self.subscribers[j].id != #[trigger] self.subscribers[k].id by {
                        assert(old_store.subscribers[j].id != old_store.subscribers[k].id);
                    }
                    assert forall|t: Seq<char>| #[trigger]
                        m.tokens.contains_key(t) implies m.subscribers.contains_key(m.tokens[t]) by {
                        assert(old_store@.subscribers.contains_key(old_store@.tokens[t]));
                    }
                    assert forall|u: Seq<char>| #[trigger]
                        m.tokens.contains_key(u) implies exists|k: int|
                        0 <= k < self.tokens.len() && #[trigger] self.tokens[k].token@ == u by {
                        let k = choose|k: int|
                            0 <= k < old_store.tokens.len() && #[trigger] old_store.tokens[k].token@ == u;
                        assert(self.tokens[k].token@ == u);
                    }
                }
                Ok(())
            },
        }
    }

    /// Whether the store holds no subscriber.
    pub fn is_empty(&self) -> (r: bool)
        requires
            self.wf(),
        ensures
            r <==> self@.subscribers.dom() == Set::<SubscriberId>::empty(),
    {
        proof {
            if self.subscribers.len() == 0 {
                assert(self@.subscribers.dom() =~= Set::<SubscriberId>::empty());
            } else {
                assert(self@.subscribers.dom().contains(self.subscribers[0].id));
            }
        }
        self.subscribers.len() == 0
    }

    /// The subscriber records, each once, in the order they were added.
    pub fn subscribers(&self) -> (r: &Vec<SubscriberRecord>)
        requires
            self.wf(),
        ensures
            forall|i: int|
                0 <= i < r.len() ==> self@.subscribers.contains_key(#[trigger] r[i].id)
                    && self@.subscribers[r[i].id] == row_of(r[i]),
            forall|id: SubscriberId| #[trigger]
                self@.subscribers.contains_key(id) ==> exists|i: int|
                    0 <= i < r.len() && #[trigger] r[i].id == id,
            forall|i: int, j: int|
                0 <= i < r.len() && 0 <= j < r.len() && i != j ==> #[trigger] r[i].id
                    != #[trigger] r[j].id,
    {
        &self.subscribers
    }
    /// Answers a confirmation request from this store: the query's token is
    /// looked up and its subscriber marked confirmed.
    pub fn confirm(&mut self, parameters: Option<Parameters>) -> (r: ConfirmOutcome)
        requires
            old(self).wf(),
        ensures
            final(self).wf(),
            final(self)@.wf(),
            (r, final(self)@) == confirm_effect(old(self)@, query_token(parameters)),
    {
        let ghost token = query_token(parameters);
        let (mut flow, action) = ConfirmFlow::start(parameters);
        let action = match action {
            ConfirmAction::FindSubscriber(t) => {
                let event = match self.find_subscriber_id_by_token(t.as_str()) {
                    Some(id) => ConfirmEvent::SubscriberFound(id),
                    None => ConfirmEvent::TokenUnknown,
                };
                flow.advance(event)
            },
            other => other,
        };
        let action = match action {
            ConfirmAction::MarkConfirmed(id) => {
                let event = match self.mark_confirmed(id) {
                    Ok(()) => ConfirmEvent::MarkedConfirmed,
                    Err(_) => ConfirmEvent::StorageFailed,
                };
                flow.advance(event)
            },
            other => other,
        };
        match action {
            ConfirmAction::Respond(o) => o,
            _ => ConfirmOutcome::ServerError,
        }
    }
}

/// Confirming twice with a token that was issued answers `Confirmed` both
/// times, the token's subscriber is confirmed after either call, and the
/// second call leaves the store as the first left it.
pub proof fn lemma_confirm_is_idempotent(v: StoreModel, token: Seq<char>)
    requires
        v.wf(),
        v.tokens.contains_key(token),
    ensures
        ({
            let (first, after_first) = confirm_effect(v, Some(token));
            let (second, after_second) = confirm_effect(after_first, Some(token));
            &&& first == ConfirmOutcome::Confirmed
            &&& second == ConfirmOutcome::Confirmed
            &&& after_first.subscribers[v.tokens[token]].status == SubscriptionStatus::Confirmed
            &&& after_second.subscribers[v.tokens[token]].status == SubscriptionStatus::Confirmed
            &&& after_second == after_first
        }),
{
    let id = v.tokens[token];
    let v1 = v.with_confirmed(id);
    assert(v1.with_confirmed(id).subscribers =~= v1.subscribers);
}

/// A token stored for a subscriber confirms that subscriber: confirming with
/// it answers `Confirmed`, the subscriber becomes confirmed with its address,
/// name and subscription time kept, every other subscriber and every token
/// stay as they were, and no subscriber is removed.
pub proof fn lemma_stored_token_confirms(v: StoreModel, id: SubscriberId, token: Seq<char>)
    requires
        v.wf(),
        v.subscribers.contains_key(id),
        !v.tokens.contains_key(token),
    ensures
        ({
            let stored = StoreModel {
                subscribers: v.subscribers,
                tokens: v.tokens.insert(token, id),
            };
            let (outcome, after) = confirm_effect(stored, Some(token));
            &&& stored.wf()
            &&& outcome == ConfirmOutcome::Confirmed
            &&& after.subscribers.dom() == v.subscribers.dom()
            &&& after.subscribers[id].status == SubscriptionStatus::Confirmed
            &&& after.subscribers[id].email == v.subscribers[id].email
            &&& after.subscribers[id].name == v.subscribers[id].name
            &&& after.subscribers[id].subscribed_at == v.subscribers[id].subscribed_at
            &&& forall|k: SubscriberId|
                k != id && #[trigger] v.subscribers.contains_key(k) ==> after.subscribers[k]
                    == v.subscribers[k]
            &&& after.tokens == stored.tokens
        }),
{
    let stored = StoreModel { subscribers: v.subscribers, tokens: v.tokens.insert(token, id) };
    assert(stored.tokens[token] == id);
    let after = confirm_effect(stored, Some(token)).1;
    assert(after.subscribers.dom() =~= v.subscribers.dom());
}

} // verus!
