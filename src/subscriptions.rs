//! Subscribing: the submitted form, the confirmation token, the confirmation
//! message and the workflow that persists, issues and notifies in turn.
use crate::domain::{
    invalid_email_reason, invalid_name_reason, is_valid_email_address, is_valid_name,
    NewSubscriber, SubscriberEmail, SubscriberId, SubscriberName, ValidationError,
};
use crate::text::push_char;
use vstd::prelude::*;
use vstd::string::*;

verus! {

/// The length of a subscription token.
pub const TOKEN_LENGTH: usize = 25;

/// The body of a `POST /subscriptions` request.
#[derive(Debug)]
pub struct SubscribeFormData {
    pub name: String,
    pub email: String,
}

/// Why a submitted form was refused.
#[derive(Debug)]
pub enum SubscriberError {
    InvalidName(ValidationError),
    InvalidEmail(ValidationError),
}

impl SubscriberError {
    /// The error in words: `Invalid name: <reason>` or `Invalid email: <reason>`.
    pub fn message(&self) -> (r: String)
        ensures
            r@ == match self {
                SubscriberError::InvalidName(e) => "Invalid name: "@ + e.reason@,
                SubscriberError::InvalidEmail(e) => "Invalid email: "@ + e.reason@,
            },
    {
        match self {
            SubscriberError::InvalidName(e) => {
                let mut s = String::from_str("Invalid name: ");
                s.append(e.reason.as_str());
                s
            },
            SubscriberError::InvalidEmail(e) => {
                let mut s = String::from_str("Invalid email: ");
                s.append(e.reason.as_str());
                s
            },
        }
    }
}

impl NewSubscriber {
    /// Validates both fields of a form; the name is checked first.
    pub fn try_from(form_data: SubscribeFormData) -> (r: Result<NewSubscriber, SubscriberError>)
        ensures
            r is Ok <==> is_valid_name(form_data.name@) && is_valid_email_address(
                form_data.email@,
            ),
            r matches Ok(s) ==> s.name@ == form_data.name@ && s.email@ == form_data.email@,
            r matches Err(SubscriberError::InvalidName(e)) ==> !is_valid_name(form_data.name@)
                && e.reason@ == invalid_name_reason(form_data.name@),
            r matches Err(SubscriberError::InvalidEmail(e)) ==> is_valid_name(form_data.name@)
                && !is_valid_email_address(form_data.email@) && e.reason@ == invalid_email_reason(
                form_data.email@,
            ),
    {
        let name = match SubscriberName::parse(form_data.name) {
            Ok(n) => n,
            Err(e) => return Err(SubscriberError::InvalidName(e)),
        };
        let email = match SubscriberEmail::parse(form_data.email) {
            Ok(e) => e,
            Err(e) => return Err(SubscriberError::InvalidEmail(e)),
        };
        Ok(NewSubscriber { email, name })
    }
}

/// An ASCII letter or digit.
pub open spec fn is_ascii_alphanumeric(c: char) -> bool {
    ('a' <= c && c <= 'z') || ('A' <= c && c <= 'Z') || ('0' <= c && c <= '9')
}

/// The shape of a subscription token: `TOKEN_LENGTH` ASCII letters and digits.
pub open spec fn is_subscription_token(t: Seq<char>) -> bool {
    &&& t.len() == TOKEN_LENGTH
    &&& forall|i: int| 0 <= i < t.len() ==> is_ascii_alphanumeric(#[trigger] t[i])
}

/// Relies on `rand::Rng::sample` with the `rand::distr::Alphanumeric`
/// distribution on `rand::rng()`: a byte drawn uniformly from A-Z, a-z, 0-9.
#[verifier::external_body]
fn random_alphanumeric() -> (c: char)
    ensures
        is_ascii_alphanumeric(c),
{
    char::from(rand::Rng::sample(&mut rand::rng(), rand::distr::Alphanumeric))
}

/// A fresh random token of `TOKEN_LENGTH` letters and digits.
pub fn generate_subscription_token() -> (t: String)
    ensures
        is_subscription_token(t@),
{
    let mut t = String::new();
    let mut i: usize = 0;
    while i < TOKEN_LENGTH
        invariant
            i <= TOKEN_LENGTH,
            t@.len() == i,
            forall|j: int| 0 <= j < i ==> is_ascii_alphanumeric(#[trigger] t@[j]),
        decreases TOKEN_LENGTH - i,
    {
        push_char(&mut t, random_alphanumeric());
        i = i + 1;
    }
    t
}

/// What `url::Url::join` makes of `input` on the absolute URL `base`, or
/// `None` where `base` is no absolute URL or the join fails.
pub uninterp spec fn joined_url(base: Seq<char>, input: Seq<char>) -> Option<Seq<char>>;

/// Relies on `url::Url::parse` of `base` and `url::Url::join` of `input` on
/// it, with the result serialised: it depends on the two texts alone.
#[verifier::external_body]
fn join_url(base: &str, input: &str) -> (r: Option<String>)
    ensures
        match r {
            Some(u) => joined_url(base@, input@) == Some(u@),
            None => joined_url(base@, input@) is None,
        },
{
    match url::Url::parse(base) {
        Ok(b) => b.join(input).ok().map(String::from),
        Err(_) => None,
    }
}

/// The path, relative to the service's base URL, that confirms `token`.
pub open spec fn confirmation_path(token: Seq<char>) -> Seq<char> {
    "subscriptions/confirm?subscription_token="@ + token
}

/// The link a subscriber follows to confirm, where the base URL admits one.
pub open spec fn confirmation_link_of(base_url: Seq<char>, token: Seq<char>) -> Option<
    Seq<char>,
> {
    joined_url(base_url, confirmation_path(token))
}

/// The confirmation link built from the base URL and a token.
pub fn confirmation_link(base_url: &str, token: &str) -> (r: Option<String>)
    ensures
        match r {
            Some(l) => confirmation_link_of(base_url@, token@) == Some(l@),
            None => confirmation_link_of(base_url@, token@) is None,
        },
{
    let mut path = String::from_str("subscriptions/confirm?subscription_token=");
    path.append(token);
    join_url(base_url, path.as_str())
}

/// The subject of the confirmation message.
pub open spec fn confirmation_subject() -> Seq<char> {
    "Welcome!"@
}

/// The HTML body of the confirmation message.
pub open spec fn confirmation_html_body(link: Seq<char>) -> Seq<char> {
    "Welcome to our newsletter!<br />Click <a href=\""@ + link
        + "\">here</a> to confirm your subscription."@
}

/// The plain-text body of the confirmation message.
pub open spec fn confirmation_text_body(link: Seq<char>) -> Seq<char> {
    "Welcome to our newsletter!\nVisit "@ + link + " to confirm your subscription."@
}

/// A message for the email provider.
#[derive(Debug)]
pub struct ConfirmationEmail {
    pub recipient: String,
    pub subject: String,
    pub html_body: String,
    pub text_body: String,
}

/// `e` is the confirmation message to `recipient` carrying `link`.
pub open spec fn is_confirmation_email(
    e: ConfirmationEmail,
    recipient: Seq<char>,
    link: Seq<char>,
) -> bool {
    &&& e.recipient@ == recipient
    &&& e.subject@ == confirmation_subject()
    &&& e.html_body@ == confirmation_html_body(link)
    &&& e.text_body@ == confirmation_text_body(link)
}

/// The confirmation message to `recipient` with `link` in both bodies.
pub fn confirmation_email(recipient: &SubscriberEmail, link: &str) -> (r: ConfirmationEmail)
    ensures
        is_confirmation_email(r, recipient@, link@),
{
    let mut html_body = String::from_str("Welcome to our newsletter!<br />Click <a href=\"");
    html_body.append(link);
    html_body.append("\">here</a> to confirm your subscription.");
    let mut text_body = String::from_str("Welcome to our newsletter!\nVisit ");
    text_body.append(link);
    text_body.append(" to confirm your subscription.");
    ConfirmationEmail {
        recipient: String::from_str(recipient.as_str()),
        subject: String::from_str("Welcome!"),
        html_body,
        text_body,
    }
}

/// The confirmation message for `new_subscriber` with the link for `token`,
/// or `None` where `base_url` admits no such link.
pub fn build_confirmation_email(
    new_subscriber: &NewSubscriber,
    base_url: &str,
    subscription_token: &str,
) -> (r: Option<ConfirmationEmail>)
    ensures
        match confirmation_link_of(base_url@, subscription_token@) {
            Some(link) => r matches Some(e) && is_confirmation_email(
                e,
                new_subscriber.email@,
                link,
            ),
            None => r is None,
        },
{
    match confirmation_link(base_url, subscription_token) {
        Some(link) => Some(confirmation_email(&new_subscriber.email, link.as_str())),
        None => None,
    }
}

/// How a subscription request ends.
#[derive(PartialEq, Eq, Structural, Clone, Copy, Debug)]
pub enum SubscribeOutcome {
    /// Saved, token issued, message handed to the provider.
    Accepted,
    /// A field of the form is missing.
    MalformedRequest,
    /// A field is present but invalid.
    BadRequest,
    /// Storage or the email provider failed.
    ServerError,
}

/// The HTTP status that answers each outcome.
pub open spec fn subscribe_status(o: SubscribeOutcome) -> u16 {
    match o {
        SubscribeOutcome::Accepted => 200,
        SubscribeOutcome::MalformedRequest => 422,
        SubscribeOutcome::BadRequest => 400,
        SubscribeOutcome::ServerError => 500,
    }
}

impl SubscribeOutcome {
    pub fn status_code(&self) -> (r: u16)
        ensures
            r == subscribe_status(*self),
    {
        match self {
            SubscribeOutcome::Accepted => 200,
            SubscribeOutcome::MalformedRequest => 422,
            SubscribeOutcome::BadRequest => 400,
            SubscribeOutcome::ServerError => 500,
        }
    }
}

/// Where a subscription attempt stands. There is no way back from a later
/// phase to an earlier one.
#[derive(PartialEq, Eq, Structural, Clone, Copy, Debug)]
pub enum SubscribePhase {
    /// Waiting for the subscriber row to be inserted.
    Persisting,
    /// Waiting for the token row to be stored.
    TokenIssuing,
    /// Waiting for the provider to take the message.
    Notifying,
    Done,
    Failed(SubscribeOutcome),
}

/// What the caller reports back after carrying out an action.
#[derive(PartialEq, Eq, Structural, Clone, Copy, Debug)]
pub enum SubscribeEvent {
    SubscriberInserted(SubscriberId),
    TokenStored,
    EmailSent,
    StorageFailed,
    DispatchFailed,
}

/// What the caller is to do next.
#[derive(Debug)]
pub enum SubscribeAction {
    /// Insert the flow's `new_subscriber` with status pending confirmation.
    InsertSubscriber,
    /// Store `token` for the subscriber `subscriber_id`.
    StoreToken { subscriber_id: SubscriberId, token: String },
    /// Hand this message to the email provider.
    SendEmail(ConfirmationEmail),
    /// Answer the request.
    Respond(SubscribeOutcome),
}

/// One subscription attempt: validated data, then the subscriber's id and
/// token as they come.
#[derive(Debug)]
pub struct SubscribeFlow {
    pub phase: SubscribePhase,
    pub new_subscriber: Option<NewSubscriber>,
    pub subscriber_id: Option<SubscriberId>,
    pub token: Option<String>,
    pub base_url: String,
}

/// The order of the phases: an attempt only moves to a phase of higher or equal rank.
pub open spec fn subscribe_phase_rank(p: SubscribePhase) -> nat {
    match p {
        SubscribePhase::Persisting => 0,
        SubscribePhase::TokenIssuing => 1,
        SubscribePhase::Notifying => 2,
        SubscribePhase::Done => 3,
        SubscribePhase::Failed(_) => 3,
    }
}

/// The outcome a finished phase stands for.
pub open spec fn finished_outcome(p: SubscribePhase) -> Option<SubscribeOutcome> {
    match p {
        SubscribePhase::Done => Some(SubscribeOutcome::Accepted),
        SubscribePhase::Failed(o) => Some(o),
        _ => None,
    }
}

impl SubscribeFlow {
    /// The parts that stay as they are from one step to the next.
    pub open spec fn same_request(self, other: SubscribeFlow) -> bool {
        &&& self.new_subscriber == other.new_subscriber
        &&& self.base_url@ == other.base_url@
    }

    /// Begins an attempt. A missing form ends it as malformed, an invalid one
    /// as a bad request; otherwise the subscriber is to be inserted.
    pub fn start(form_data: Option<SubscribeFormData>, base_url: String) -> (r: (
        SubscribeFlow,
        SubscribeAction,
    ))
        ensures
            r.0.base_url@ == base_url@,
            r.0.subscriber_id is None,
            r.0.token is None,
            match form_data {
                None => r.0.phase == SubscribePhase::Failed(SubscribeOutcome::MalformedRequest)
                    && r.1 == SubscribeAction::Respond(SubscribeOutcome::MalformedRequest),
                Some(f) => if is_valid_name(f.name@) && is_valid_email_address(f.email@) {
                    &&& r.0.phase == SubscribePhase::Persisting
                    &&& r.0.new_subscriber matches Some(s) && s.name@ == f.name@ && s.email@
                        == f.email@
                    &&& r.1 == SubscribeAction::InsertSubscriber
                } else {
                    &&& r.0.phase == SubscribePhase::Failed(SubscribeOutcome::BadRequest)
                    &&& r.1 == SubscribeAction::Respond(SubscribeOutcome::BadRequest)
                },
            },
    {
        match form_data {
            None => (
                SubscribeFlow {
                    phase: SubscribePhase::Failed(SubscribeOutcome::MalformedRequest),
                    new_subscriber: None,
                    subscriber_id: None,
                    token: None,
                    base_url,
                },
                SubscribeAction::Respond(SubscribeOutcome::MalformedRequest),
            ),
            Some(f) => match NewSubscriber::try_from(f) {
                Ok(s) => (
                    SubscribeFlow {
                        phase: SubscribePhase::Persisting,
                        new_subscriber: Some(s),
                        subscriber_id: None,
                        token: None,
                        base_url,
                    },
                    SubscribeAction::InsertSubscriber,
                ),
                Err(_) => (
                    SubscribeFlow {
                        phase: SubscribePhase::Failed(SubscribeOutcome::BadRequest),
                        new_subscriber: None,
                        subscriber_id: None,
                        token: None,
                        base_url,
                    },
                    SubscribeAction::Respond(SubscribeOutcome::BadRequest),
                ),
            },
        }
    }

    fn fail(&mut self) -> (r: SubscribeAction)
        ensures
            final(self).phase == SubscribePhase::Failed(SubscribeOutcome::ServerError),
            final(self).same_request(*old(self)),
            final(self).subscriber_id == old(self).subscriber_id,
            final(self).token == old(self).token,
            r == SubscribeAction::Respond(SubscribeOutcome::ServerError),
    {
        self.phase = SubscribePhase::Failed(SubscribeOutcome::ServerError);
        SubscribeAction::Respond(SubscribeOutcome::ServerError)
    }

    /// Takes the result of the last action and says what to do next.
    /// A finished attempt stays as it is and repeats its answer; an event
    /// that does not belong to the current phase, or a failure report, ends
    /// the attempt with a server error. Nothing done before is undone.
    pub fn advance(&mut self, event: SubscribeEvent) -> (r: SubscribeAction)
        ensures
            final(self).same_request(*old(self)),
            subscribe_phase_rank(final(self).phase) >= subscribe_phase_rank(old(self).phase),
            finished_outcome(old(self).phase) is Some ==> final(self).phase == old(self).phase,
            match (old(self).phase, event) {
                (SubscribePhase::Persisting, SubscribeEvent::SubscriberInserted(id)) => {
                    &&& final(self).phase == SubscribePhase::TokenIssuing
                    &&& final(self).subscriber_id == Some(id)
                    &&& match (final(self).token, r) {
                        (Some(t), SubscribeAction::StoreToken { subscriber_id, token }) => {
                            &&& is_subscription_token(t@)
                            &&& subscriber_id == id
                            &&& token@ == t@
                        },
                        _ => false,
                    }
                },
                (SubscribePhase::TokenIssuing, SubscribeEvent::TokenStored) => {
                    &&& final(self).subscriber_id == old(self).subscriber_id
                    &&& final(self).token == old(self).token
                    &&& match (old(self).new_subscriber, old(self).token) {
                        (Some(s), Some(t)) => match confirmation_link_of(
                            old(self).base_url@,
                            t@,
                        ) {
                            Some(link) => final(self).phase == SubscribePhase::Notifying
                                && match r {
                                SubscribeAction::SendEmail(e) => is_confirmation_email(
                                    e,
                                    s.email@,
                                    link,
                                ),
                                _ => false,
                            },
                            None => final(self).phase == SubscribePhase::Failed(
                                SubscribeOutcome::ServerError,
                            ) && r == SubscribeAction::Respond(SubscribeOutcome::ServerError),
                        },
                        _ => final(self).phase == SubscribePhase::Failed(
                            SubscribeOutcome::ServerError,
                        ) && r == SubscribeAction::Respond(SubscribeOutcome::ServerError),
                    }
                },
                (SubscribePhase::Notifying, SubscribeEvent::EmailSent) => {
                    &&& final(self).phase == SubscribePhase::Done
                    &&& final(self).subscriber_id == old(self).subscriber_id
                    &&& final(self).token == old(self).token
                    &&& r == SubscribeAction::Respond(SubscribeOutcome::Accepted)
                },
                (phase, _) => {
                    &&& final(self).subscriber_id == old(self).subscriber_id
                    &&& final(self).token == old(self).token
                    &&& match finished_outcome(phase) {
                        Some(o) => final(self).phase == phase && r == SubscribeAction::Respond(o),
                        None => final(self).phase == SubscribePhase::Failed(
                            SubscribeOutcome::ServerError,
                        ) && r == SubscribeAction::Respond(SubscribeOutcome::ServerError),
                    }
                },
            },
    {
        match (self.phase, event) {
            (SubscribePhase::Persisting, SubscribeEvent::SubscriberInserted(id)) => {
                let token = generate_subscription_token();
                self.phase = SubscribePhase::TokenIssuing;
                self.subscriber_id = Some(id);
                let action = SubscribeAction::StoreToken {
                    subscriber_id: id,
                    token: token.clone(),
                };
                self.token = Some(token);
                action
            },
            (SubscribePhase::TokenIssuing, SubscribeEvent::TokenStored) => {
                let message = match (&self.new_subscriber, &self.token) {
                    (Some(s), Some(t)) => build_confirmation_email(
                        s,
                        self.base_url.as_str(),
                        t.as_str(),
                    ),
                    _ => None,
                };
                match message {
                    Some(e) => {
                        self.phase = SubscribePhase::Notifying;
                        SubscribeAction::SendEmail(e)
                    },
                    None => self.fail(),
                }
            },
            (SubscribePhase::Notifying, SubscribeEvent::EmailSent) => {
                self.phase = SubscribePhase::Done;
                SubscribeAction::Respond(SubscribeOutcome::Accepted)
            },
            (SubscribePhase::Done, _) => SubscribeAction::Respond(SubscribeOutcome::Accepted),
            (SubscribePhase::Failed(o), _) => SubscribeAction::Respond(o),
            _ => self.fail(),
        }
    }
}

} // verus!
