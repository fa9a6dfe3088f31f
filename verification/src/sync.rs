//! The course of one invocation: set the presence, then, unless the
//! service was told when to revert by itself, wait for the operator and
//! reset it. This module decides; the caller reads stores, sends requests
//! and waits.

use vstd::prelude::*;
use crate::cookie::CookieVariant;
use crate::failure::Failure;
use crate::paths::StoreLocation;
use crate::presence::{AccountType, InstanceType, Presence};
use crate::publish::{
    availability_request, availability_request_model, message_request, message_request_model,
    HttpRequest, PresenceRequest,
};
use crate::text::string_of;
use crate::store::StoreTokens;
use crate::token::{expiries_of, freshest_live, select, SourceKind, TokenRecord};

verus! {

/// The source that holds the credential for an application and an
/// account kind.
pub open spec fn source_for(instance: InstanceType, account: AccountType) -> SourceKind {
    match (instance, account) {
        (InstanceType::TeamsApp, AccountType::Microsoft) => SourceKind::AuthCookie,
        (InstanceType::TeamsApp, AccountType::Live) => SourceKind::AppCookie,
        (InstanceType::Chrome, AccountType::Microsoft) => SourceKind::PresenceCache,
        (InstanceType::Chrome, AccountType::Live) => SourceKind::SkypeCache,
    }
}

/// The store in which a source lies.
pub open spec fn location_of(source: SourceKind) -> StoreLocation {
    match source {
        SourceKind::AuthCookie => StoreLocation::TeamsCookies { partition: false },
        SourceKind::AppCookie => StoreLocation::TeamsCookies { partition: true },
        SourceKind::PresenceCache | SourceKind::SkypeCache => StoreLocation::ChromeLevelDb,
    }
}

/// The cookie that a source reads, for the two sources that are cookies.
pub open spec fn cookie_of(source: SourceKind) -> Option<CookieVariant> {
    match source {
        SourceKind::AuthCookie => Some(CookieVariant::AuthToken),
        SourceKind::AppCookie => Some(CookieVariant::SessionToken),
        SourceKind::PresenceCache | SourceKind::SkypeCache => None,
    }
}

/// Says which source holds the credential for an application and an
/// account kind.
pub fn credential_source(instance: InstanceType, account: AccountType) -> (r: SourceKind)
    ensures
        r == source_for(instance, account),
{
    match instance {
        InstanceType::TeamsApp => match account {
            AccountType::Microsoft => SourceKind::AuthCookie,
            AccountType::Live => SourceKind::AppCookie,
        },
        InstanceType::Chrome => match account {
            AccountType::Microsoft => SourceKind::PresenceCache,
            AccountType::Live => SourceKind::SkypeCache,
        },
    }
}

/// Says in which store a source lies.
pub fn store_location(source: SourceKind) -> (r: StoreLocation)
    ensures
        r == location_of(source),
{
    match source {
        SourceKind::AuthCookie => StoreLocation::TeamsCookies { partition: false },
        SourceKind::AppCookie => StoreLocation::TeamsCookies { partition: true },
        SourceKind::PresenceCache => StoreLocation::ChromeLevelDb,
        SourceKind::SkypeCache => StoreLocation::ChromeLevelDb,
    }
}

/// Says which cookie a source reads, if it is a cookie.
pub fn cookie_variant(source: SourceKind) -> (r: Option<CookieVariant>)
    ensures
        r == cookie_of(source),
{
    match source {
        SourceKind::AuthCookie => Some(CookieVariant::AuthToken),
        SourceKind::AppCookie => Some(CookieVariant::SessionToken),
        SourceKind::PresenceCache => None,
        SourceKind::SkypeCache => None,
    }
}

/// Takes from the outcome of a scan the credential for an account kind:
/// that of the presence family for one, that of the skype family for the
/// other. Fails with `NoValidToken` where the scan found none.
pub fn pick_store_token(tokens: StoreTokens, account: AccountType) -> (r: Result<
    TokenRecord,
    Failure,
>)
    ensures
        r == match account {
            AccountType::Microsoft => match tokens.presence {
                Some(t) => Ok::<TokenRecord, Failure>(t),
                None => Err::<TokenRecord, Failure>(Failure::NoValidToken),
            },
            AccountType::Live => match tokens.skype {
                Some(t) => Ok::<TokenRecord, Failure>(t),
                None => Err::<TokenRecord, Failure>(Failure::NoValidToken),
            },
        },
{
    let pick = match account {
        AccountType::Microsoft => tokens.presence,
        AccountType::Live => tokens.skype,
    };
    match pick {
        Some(t) => Ok(t),
        None => Err(Failure::NoValidToken),
    }
}

/// The two requests of one pass.
#[derive(Clone, Debug, PartialEq, Eq)]
pub struct PassPlan {
    pub availability: HttpRequest,
    pub message: HttpRequest,
}

/// Whether `plan` is the pair of requests that publishes `request` with
/// the credential `token`: one credential for both.
pub open spec fn is_plan_for(
    plan: PassPlan,
    token: Seq<char>,
    account: AccountType,
    request: PresenceRequest,
) -> bool {
    &&& plan.availability@ == availability_request_model(
        token,
        account,
        request.presence,
        request.expiration,
    )
    &&& plan.message@ == message_request_model(
        token,
        account,
        string_of(request.message),
        request.pin,
        request.expiration,
    )
}

/// What a reset asks for: the state `Reset`, no message, no pin and no
/// expiration.
pub fn reset_request() -> (r: PresenceRequest)
    ensures
        r.presence == Presence::Reset,
        r.message is None,
        !r.pin,
        r.expiration is None,
{
    PresenceRequest { presence: Presence::Reset, message: None, pin: false, expiration: None }
}

/// Builds the two requests that publish `request` with the credential
/// `token`.
pub fn plan_pass(token: &TokenRecord, account: AccountType, request: &PresenceRequest) -> (r:
    PassPlan)
    ensures
        is_plan_for(r, token.value@, account, *request),
{
    let message: Option<&str> = match &request.message {
        Some(message) => Some(message.as_str()),
        None => None,
    };
    PassPlan {
        availability: availability_request(
            token.value.as_str(),
            account,
            request.presence,
            request.expiration,
        ),
        message: message_request(
            token.value.as_str(),
            account,
            message,
            request.pin,
            request.expiration,
        ),
    }
}

/// Plans a pass from the credentials that were found: chooses the
/// freshest that is valid at `now` and builds both requests with it.
/// Where none is valid the pass fails with `NoValidToken` and there is
/// nothing to send.
pub fn plan_from_candidates(
    candidates: Vec<TokenRecord>,
    now: u64,
    account: AccountType,
    request: &PresenceRequest,
) -> (r: Result<PassPlan, Failure>)
    ensures
        match freshest_live(expiries_of(candidates@), now) {
            Some(i) => {
                &&& 0 <= i < candidates@.len()
                &&& r matches Ok(plan)
                &&& is_plan_for(plan, candidates@[i].value@, account, *request)
            },
            None => r == Err::<PassPlan, Failure>(Failure::NoValidToken),
        },
{
    match select(candidates, now) {
        Ok(token) => Ok(plan_pass(&token, account, request)),
        Err(e) => Err(e),
    }
}

/// Where an invocation stands.
#[derive(Clone, Copy, Debug, PartialEq, Eq, Structural)]
pub enum Phase {
    /// The pass that sets the presence is under way.
    Setting,
    /// The presence is set; the operator has not asked to clear it yet.
    Waiting,
    /// The pass that resets the presence is under way.
    Resetting,
    /// All is done.
    Done,
    /// A pass failed, for the reason given.
    Failed(Failure),
}

/// What happened outside.
#[derive(Clone, Copy, Debug, PartialEq, Eq, Structural)]
pub enum Event {
    /// Both requests of the pass under way were answered with 200.
    PassSucceeded,
    /// The pass under way failed.
    PassFailed(Failure),
    /// The operator asked to clear the presence.
    OperatorSignal,
}

/// What the caller is to do next.
#[derive(Clone, Copy, Debug, PartialEq, Eq, Structural)]
pub enum Action {
    /// Run a pass with what the user asked for.
    PublishRequest,
    /// Block until the operator enters a line.
    AwaitOperator,
    /// Run a pass with the reset request.
    PublishReset,
    /// End successfully.
    Finish,
    /// End with the failure given.
    Abort(Failure),
    /// Nothing: the event does not belong to the phase.
    Ignore,
}

/// The rule of the orchestrator: the phase and the action that follow an
/// event. `timed` says that the user gave an expiration, in which case
/// the service reverts by itself and nothing follows the first pass.
pub open spec fn next(phase: Phase, timed: bool, event: Event) -> (Phase, Action) {
    match (phase, event) {
        (Phase::Setting, Event::PassSucceeded) => if timed {
            (Phase::Done, Action::Finish)
        } else {
            (Phase::Waiting, Action::AwaitOperator)
        },
        (Phase::Setting, Event::PassFailed(e)) => (Phase::Failed(e), Action::Abort(e)),
        (Phase::Waiting, Event::OperatorSignal) => (Phase::Resetting, Action::PublishReset),
        (Phase::Resetting, Event::PassSucceeded) => (Phase::Done, Action::Finish),
        (Phase::Resetting, Event::PassFailed(e)) => (Phase::Failed(e), Action::Abort(e)),
        _ => (phase, Action::Ignore),
    }
}

/// The phase reached from `phase` after `events`, in order.
pub open spec fn run(phase: Phase, timed: bool, events: Seq<Event>) -> Phase
    decreases events.len(),
{
    if events.len() == 0 {
        phase
    } else {
        next(run(phase, timed, events.drop_last()), timed, events.last()).0
    }
}

/// With an expiration, an invocation never waits for the operator and
/// never resets: whatever happens, it stays in the first pass or ends.
pub proof fn lemma_timed_never_waits(events: Seq<Event>)
    ensures
        run(Phase::Setting, true, events) != Phase::Waiting,
        run(Phase::Setting, true, events) != Phase::Resetting,
    decreases events.len(),
{
    if events.len() > 0 {
        lemma_timed_never_waits(events.drop_last());
    }
}

/// Once an invocation has ended, well or not, no event moves it and none
/// asks for anything more.
pub proof fn lemma_end_is_final(phase: Phase, timed: bool, event: Event)
    requires
        phase == Phase::Done || phase is Failed,
    ensures
        next(phase, timed, event) == (phase, Action::Ignore),
{
}

/// A request is sent only at the start and on the operator's signal: the
/// reset pass begins from `Waiting` alone.
pub proof fn lemma_reset_follows_signal(phase: Phase, timed: bool, event: Event)
    requires
        next(phase, timed, event).1 == Action::PublishReset,
    ensures
        phase == Phase::Waiting,
        event == Event::OperatorSignal,
        next(phase, timed, event).0 == Phase::Resetting,
{
}

/// The decisions of one invocation.
#[derive(Clone, Copy, Debug, PartialEq, Eq)]
pub struct Orchestrator {
    phase: Phase,
    timed: bool,
}

impl Orchestrator {
    /// Where the invocation stands.
    pub closed spec fn phase_of(self) -> Phase {
        self.phase
    }

    /// Whether the user gave an expiration.
    pub closed spec fn is_timed(self) -> bool {
        self.timed
    }

    /// Begins an invocation for `request`. The first thing to do is the
    /// pass that sets the presence.
    pub fn start(request: &PresenceRequest) -> (r: (Orchestrator, Action))
        ensures
            r.0.phase_of() == Phase::Setting,
            r.0.is_timed() == request.expiration is Some,
            r.1 == Action::PublishRequest,
    {
        let timed = match request.expiration {
            Some(_) => true,
            None => false,
        };
        (Orchestrator { phase: Phase::Setting, timed }, Action::PublishRequest)
    }

    /// Where the invocation stands.
    pub fn phase(&self) -> (r: Phase)
        ensures
            r == self.phase_of(),
    {
        self.phase
    }

    /// Takes in what happened and says what to do next.
    pub fn step(&mut self, event: Event) -> (r: Action)
        ensures
            (final(self).phase_of(), r) == next(old(self).phase_of(), old(self).is_timed(), event),
            final(self).is_timed() == old(self).is_timed(),
    {
        let (phase, action) = match self.phase {
            Phase::Setting => match event {
                Event::PassSucceeded => if self.timed {
                    (Phase::Done, Action::Finish)
                } else {
                    (Phase::Waiting, Action::AwaitOperator)
                },
                Event::PassFailed(e) => (Phase::Failed(e), Action::Abort(e)),
                Event::OperatorSignal => (Phase::Setting, Action::Ignore),
            },
            Phase::Waiting => match event {
                Event::OperatorSignal => (Phase::Resetting, Action::PublishReset),
                _ => (Phase::Waiting, Action::Ignore),
            },
            Phase::Resetting => match event {
                Event::PassSucceeded => (Phase::Done, Action::Finish),
                Event::PassFailed(e) => (Phase::Failed(e), Action::Abort(e)),
                Event::OperatorSignal => (Phase::Resetting, Action::Ignore),
            },
            Phase::Done => (Phase::Done, Action::Ignore),
            Phase::Failed(e) => (Phase::Failed(e), Action::Ignore),
        };
        self.phase = phase;
        action
    }
}

} // verus!
