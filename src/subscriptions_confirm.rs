//! Confirming: the query of the emailed link and the workflow that looks the
//! token up and marks its subscriber confirmed.
use crate::domain::SubscriberId;
use vstd::prelude::*;

verus! {

/// The query of `GET /subscriptions/confirm`.
#[derive(Debug)]
pub struct Parameters {
    pub subscription_token: String,
}

/// How a confirmation request ends.
#[derive(PartialEq, Eq, Structural, Clone, Copy, Debug)]
pub enum ConfirmOutcome {
    Confirmed,
    /// No token in the query, or a token nobody was given.
    BadRequest,
    /// Storage failed.
    ServerError,
}

/// The HTTP status that answers each outcome.
pub open spec fn confirm_status(o: ConfirmOutcome) -> u16 {
    match o {
        ConfirmOutcome::Confirmed => 200,
        ConfirmOutcome::BadRequest => 400,
        ConfirmOutcome::ServerError => 500,
    }
}

impl ConfirmOutcome {
    pub fn status_code(&self) -> (r: u16)
        ensures
            r == confirm_status(*self),
    {
        match self {
            ConfirmOutcome::Confirmed => 200,
            ConfirmOutcome::BadRequest => 400,
            ConfirmOutcome::ServerError => 500,
        }
    }
}

/// Where a confirmation stands.
#[derive(PartialEq, Eq, Structural, Clone, Copy, Debug)]
pub enum ConfirmPhase {
    /// Waiting for the token to be looked up.
    LookingUp,
    /// Waiting for the subscriber to be marked confirmed.
    Confirming,
    Done,
    Failed(ConfirmOutcome),
}

/// What the caller reports back after carrying out an action.
#[derive(PartialEq, Eq, Structural, Clone, Copy, Debug)]
pub enum ConfirmEvent {
    SubscriberFound(SubscriberId),
    TokenUnknown,
    MarkedConfirmed,
    StorageFailed,
}

/// What the caller is to do next.
#[derive(Debug)]
pub enum ConfirmAction {
    /// Look up the subscriber this token was issued to.
    FindSubscriber(String),
    /// Set this subscriber's status to confirmed.
    MarkConfirmed(SubscriberId),
    /// Answer the request.
    Respond(ConfirmOutcome),
}

/// One confirmation attempt.
#[derive(Debug)]
pub struct ConfirmFlow {
    pub phase: ConfirmPhase,
}

/// The phase after `e`, and the outcome to answer with if the attempt is
/// then finished, or the subscriber to mark.
pub open spec fn confirm_step(p: ConfirmPhase, e: ConfirmEvent) -> (ConfirmPhase, ConfirmAction) {
    match (p, e) {
        (ConfirmPhase::LookingUp, ConfirmEvent::SubscriberFound(id)) => (
            ConfirmPhase::Confirming,
            ConfirmAction::MarkConfirmed(id),
        ),
        (ConfirmPhase::LookingUp, ConfirmEvent::TokenUnknown) => (
            ConfirmPhase::Failed(ConfirmOutcome::BadRequest),
            ConfirmAction::Respond(ConfirmOutcome::BadRequest),
        ),
        (ConfirmPhase::Confirming, ConfirmEvent::MarkedConfirmed) => (
            ConfirmPhase::Done,
            ConfirmAction::Respond(ConfirmOutcome::Confirmed),
        ),
        (ConfirmPhase::Done, _) => (ConfirmPhase::Done, ConfirmAction::Respond(ConfirmOutcome::Confirmed)),
        (ConfirmPhase::Failed(o), _) => (ConfirmPhase::Failed(o), ConfirmAction::Respond(o)),
        _ => (
            ConfirmPhase::Failed(ConfirmOutcome::ServerError),
            ConfirmAction::Respond(ConfirmOutcome::ServerError),
        ),
    }
}

/// The order of the phases: an attempt only moves to a phase of higher or equal rank.
pub open spec fn confirm_phase_rank(p: ConfirmPhase) -> nat {
    match p {
        ConfirmPhase::LookingUp => 0,
        ConfirmPhase::Confirming => 1,
        ConfirmPhase::Done => 2,
        ConfirmPhase::Failed(_) => 2,
    }
}

impl ConfirmFlow {
    /// Begins an attempt: without a token it ends as a bad request,
    /// otherwise the token is to be looked up.
    pub fn start(parameters: Option<Parameters>) -> (r: (ConfirmFlow, ConfirmAction))
        ensures
            match parameters {
                None => r.0.phase == ConfirmPhase::Failed(ConfirmOutcome::BadRequest) && r.1
                    == ConfirmAction::Respond(ConfirmOutcome::BadRequest),
                Some(p) => r.0.phase == ConfirmPhase::LookingUp && match r.1 {
                    ConfirmAction::FindSubscriber(t) => t@ == p.subscription_token@,
                    _ => false,
                },
            },
    {
        match parameters {
            None => (
                ConfirmFlow { phase: ConfirmPhase::Failed(ConfirmOutcome::BadRequest) },
                ConfirmAction::Respond(ConfirmOutcome::BadRequest),
            ),
            Some(p) => (
                ConfirmFlow { phase: ConfirmPhase::LookingUp },
                ConfirmAction::FindSubscriber(p.subscription_token),
            ),
        }
    }

    /// Takes the result of the last action and says what to do next.
    pub fn advance(&mut self, event: ConfirmEvent) -> (r: ConfirmAction)
        ensures
            (final(self).phase, r) == confirm_step(old(self).phase, event),
            confirm_phase_rank(final(self).phase) >= confirm_phase_rank(old(self).phase),
    {
        match (self.phase, event) {
            (ConfirmPhase::LookingUp, ConfirmEvent::SubscriberFound(id)) => {
                self.phase = ConfirmPhase::Confirming;
                ConfirmAction::MarkConfirmed(id)
            },
            (ConfirmPhase::LookingUp, ConfirmEvent::TokenUnknown) => {
                self.phase = ConfirmPhase::Failed(ConfirmOutcome::BadRequest);
                ConfirmAction::Respond(ConfirmOutcome::BadRequest)
            },
            (ConfirmPhase::Confirming, ConfirmEvent::MarkedConfirmed) => {
                self.phase = ConfirmPhase::Done;
                ConfirmAction::Respond(ConfirmOutcome::Confirmed)
            },
            (ConfirmPhase::Done, _) => ConfirmAction::Respond(ConfirmOutcome::Confirmed),
            (ConfirmPhase::Failed(o), _) => ConfirmAction::Respond(o),
            _ => {
                self.phase = ConfirmPhase::Failed(ConfirmOutcome::ServerError);
                ConfirmAction::Respond(ConfirmOutcome::ServerError)
            },
        }
    }
}

} // verus!
