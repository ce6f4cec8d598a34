//! The identity extractor: one small state machine per request.
//!
//! A request starts in `AwaitHeader`. Reading the header either rejects it
//! or asks for one verification call; the outcome of that call either
//! authenticates or rejects it. The machine decides, the caller does the
//! work: it feeds in what happened and carries out the action it gets back.

use crate::identity::identity_of;
use crate::identity::text_view;
use crate::identity::LocalUserRecord;
use crate::identity::RecordView;
use crate::identity::Rejection;
use crate::identity::RequestView;
use crate::identity::UnkeyApiId;
use crate::identity::User;
use crate::identity::UserView;
use crate::identity::VerdictView;
use crate::identity::VerificationRequest;
use crate::identity::VerificationVerdict;
use crate::identity::STATUS_UNAUTHORIZED;
use vstd::prelude::*;

verus! {

/// Where the extraction of one request's identity stands.
#[derive(Debug)]
pub enum Extraction {
    /// Nothing has been read yet.
    AwaitHeader,
    /// The request carries a credential, and the verification call for it
    /// has been asked for.
    Verifying(VerificationRequest),
    /// The verification service has accepted the credential.
    Authenticated(User),
    /// The request is not authenticated, for the reason given.
    Rejected(Rejection),
}

/// The mathematical value of an [`Extraction`].
pub enum ExtractionView {
    AwaitHeader,
    Verifying(RequestView),
    Authenticated(UserView),
    Rejected(Rejection),
}

impl View for Extraction {
    type V = ExtractionView;

    open spec fn view(&self) -> ExtractionView {
        match self {
            Extraction::AwaitHeader => ExtractionView::AwaitHeader,
            Extraction::Verifying(request) => ExtractionView::Verifying(request@),
            Extraction::Authenticated(user) => ExtractionView::Authenticated(user@),
            Extraction::Rejected(reason) => ExtractionView::Rejected(*reason),
        }
    }
}

impl ExtractionView {
    /// Whether the extraction has come to its end.
    pub open spec fn is_terminal(self) -> bool {
        self is Authenticated || self is Rejected
    }
}

/// What the caller reports to the machine.
#[derive(Debug)]
pub enum Event {
    /// The `Authorization` header has been read: the credential it carries,
    /// or `None` where the request has no usable one.
    Header(Option<String>),
    /// The verification service has answered.
    Verdict(VerificationVerdict),
    /// The verification call failed before any answer came.
    Unreachable,
}

/// The mathematical value of an [`Event`].
pub enum EventView {
    Header(Option<Seq<char>>),
    Verdict(VerdictView),
    Unreachable,
}

impl View for Event {
    type V = EventView;

    open spec fn view(&self) -> EventView {
        match self {
            Event::Header(credential) => EventView::Header(text_view(*credential)),
            Event::Verdict(verdict) => EventView::Verdict(verdict@),
            Event::Unreachable => EventView::Unreachable,
        }
    }
}

/// What the machine asks of the caller after an event.
#[derive(Debug)]
pub enum Action {
    /// Make one call to the verification service with this request, and
    /// report its outcome.
    Verify(VerificationRequest),
    /// The extraction has just come to its end.
    Finish,
    /// The event was not awaited in this state: nothing has changed, and
    /// nothing is to be done.
    Ignore,
}

/// The mathematical value of an [`Action`].
pub enum ActionView {
    Verify(RequestView),
    Finish,
    Ignore,
}

impl View for Action {
    type V = ActionView;

    open spec fn view(&self) -> ActionView {
        match self {
            Action::Verify(request) => ActionView::Verify(request@),
            Action::Finish => ActionView::Finish,
            Action::Ignore => ActionView::Ignore,
        }
    }
}

/// The extractor of a process: the namespace to verify credentials against
/// and the record of the local account. Both are handed over once, at
/// construction, and cannot be changed afterwards.
#[derive(Clone, Debug)]
pub struct IdentityExtractor {
    tenant: UnkeyApiId,
    record: LocalUserRecord,
}

/// The mathematical value of an [`IdentityExtractor`].
pub struct ExtractorView {
    pub tenant: Seq<char>,
    pub record: RecordView,
}

impl View for IdentityExtractor {
    type V = ExtractorView;

    closed spec fn view(&self) -> ExtractorView {
        ExtractorView { tenant: self.tenant@, record: self.record@ }
    }
}

impl ExtractorView {
    /// The request that asks whether `credential` is valid.
    pub open spec fn request_for(self, credential: Seq<char>) -> RequestView {
        RequestView { credential, tenant_id: self.tenant }
    }

    /// The transition function: the state after `event`, and the action
    /// that the caller is to carry out.
    pub open spec fn step(self, state: ExtractionView, event: EventView) -> (
        ExtractionView,
        ActionView,
    ) {
        match state {
            ExtractionView::AwaitHeader => match event {
                EventView::Header(Some(credential)) => (
                    ExtractionView::Verifying(self.request_for(credential)),
                    ActionView::Verify(self.request_for(credential)),
                ),
                EventView::Header(None) => (
                    ExtractionView::Rejected(Rejection::MissingCredential),
                    ActionView::Finish,
                ),
                _ => (state, ActionView::Ignore),
            },
            ExtractionView::Verifying(_) => match event {
                EventView::Verdict(verdict) => if verdict.valid {
                    (
                        ExtractionView::Authenticated(identity_of(self.record, verdict)),
                        ActionView::Finish,
                    )
                } else {
                    (ExtractionView::Rejected(Rejection::InvalidCredential), ActionView::Finish)
                },
                EventView::Unreachable => (
                    ExtractionView::Rejected(Rejection::VerificationUnreachable),
                    ActionView::Finish,
                ),
                _ => (state, ActionView::Ignore),
            },
            _ => (state, ActionView::Ignore),
        }
    }
}

impl ExtractorView {
    /// The state after a whole series of events, taken in order.
    pub open spec fn run(self, state: ExtractionView, events: Seq<EventView>) -> ExtractionView
        decreases events.len(),
    {
        if events.len() == 0 {
            state
        } else {
            self.run(self.step(state, events[0]).0, events.drop_first())
        }
    }

    /// How many verification calls a series of events asks for.
    pub open spec fn calls(self, state: ExtractionView, events: Seq<EventView>) -> nat
        decreases events.len(),
    {
        if events.len() == 0 {
            0
        } else {
            let (next, action) = self.step(state, events[0]);
            let asked: nat = if action is Verify {
                1
            } else {
                0
            };
            asked + self.calls(next, events.drop_first())
        }
    }

    /// The state in which the extraction of one request ends, when the
    /// caller does as it is told: it reports the credential that it read,
    /// and, where the machine then asks for the verification call, reports
    /// `reply` as the outcome of that call.
    pub open spec fn outcome(self, credential: Option<Seq<char>>, reply: EventView) -> ExtractionView {
        let (state, action) = self.step(ExtractionView::AwaitHeader, EventView::Header(credential));
        if action is Verify {
            self.step(state, reply).0
        } else {
            state
        }
    }
}

impl EventView {
    /// Whether the event reports how a verification call ended.
    pub open spec fn is_reply(self) -> bool {
        self is Verdict || self is Unreachable
    }
}

impl IdentityExtractor {
    /// An extractor that verifies against `tenant` and gives every
    /// authenticated user the account `record`.
    pub fn new(tenant: UnkeyApiId, record: LocalUserRecord) -> (extractor: IdentityExtractor)
        ensures
            extractor@ == (ExtractorView { tenant: tenant@, record: record@ }),
    {
        IdentityExtractor { tenant, record }
    }

    /// The namespace that credentials are verified against.
    pub fn tenant(&self) -> (tenant: &UnkeyApiId)
        ensures
            tenant@ == self@.tenant,
    {
        &self.tenant
    }

    /// The state that every request starts in.
    pub fn start(&self) -> (state: Extraction)
        ensures
            state@ == ExtractionView::AwaitHeader,
    {
        Extraction::AwaitHeader
    }

    /// Takes the extraction one event further. Returns the new state and
    /// what the caller is to do next.
    ///
    /// Only two events are awaited: the header in `AwaitHeader`, and the
    /// outcome of the verification call in `Verifying`. Any other event
    /// leaves the state as it is. In particular nothing leads out of
    /// `Authenticated` or `Rejected`, and nothing but a verdict that says
    /// `valid` leads into `Authenticated`.
    pub fn step(&self, state: Extraction, event: Event) -> (next: (Extraction, Action))
        ensures
            (next.0@, next.1@) == self@.step(state@, event@),
    {
        match state {
            Extraction::AwaitHeader => match event {
                Event::Header(Some(credential)) => {
                    let awaited = VerificationRequest {
                        credential: credential.clone(),
                        tenant_id: self.tenant.0.clone(),
                    };
                    let sent = VerificationRequest {
                        credential,
                        tenant_id: self.tenant.0.clone(),
                    };
                    (Extraction::Verifying(awaited), Action::Verify(sent))
                },
                Event::Header(None) => (
                    Extraction::Rejected(Rejection::MissingCredential),
                    Action::Finish,
                ),
                _ => (Extraction::AwaitHeader, Action::Ignore),
            },
            Extraction::Verifying(request) => match event {
                Event::Verdict(verdict) => match User::from_verdict(verdict, &self.record) {
                    Ok(user) => (Extraction::Authenticated(user), Action::Finish),
                    Err(reason) => (Extraction::Rejected(reason), Action::Finish),
                },
                Event::Unreachable => (
                    Extraction::Rejected(Rejection::VerificationUnreachable),
                    Action::Finish,
                ),
                _ => (Extraction::Verifying(request), Action::Ignore),
            },
            Extraction::Authenticated(user) => (Extraction::Authenticated(user), Action::Ignore),
            Extraction::Rejected(reason) => (Extraction::Rejected(reason), Action::Ignore),
        }
    }
}

/// The identity that optional extraction yields.
pub open spec fn optional_identity(state: ExtractionView) -> Option<UserView> {
    match state {
        ExtractionView::Authenticated(user) => Some(user),
        _ => None,
    }
}

/// The view of an identity that may be absent.
pub open spec fn identity_view(user: Option<User>) -> Option<UserView> {
    match user {
        Some(user) => Some(user@),
        None => None,
    }
}

impl Extraction {
    /// Whether the extraction has come to its end.
    pub fn is_terminal(&self) -> (done: bool)
        ensures
            done == self@.is_terminal(),
    {
        match self {
            Extraction::Authenticated(_) => true,
            Extraction::Rejected(_) => true,
            _ => false,
        }
    }

    /// Why the request was rejected, if it was.
    pub fn rejection(&self) -> (reason: Option<Rejection>)
        ensures
            reason == match self@ {
                ExtractionView::Rejected(reason) => Some(reason),
                _ => None,
            },
    {
        match self {
            Extraction::Rejected(reason) => Some(*reason),
            _ => None,
        }
    }

    /// Optional extraction: the identity, or none. It never refuses a
    /// request: whoever is not authenticated goes on as a guest.
    pub fn optional(self) -> (user: Option<User>)
        ensures
            identity_view(user) == optional_identity(self@),
    {
        match self {
            Extraction::Authenticated(user) => Some(user),
            _ => None,
        }
    }

    /// Mandatory extraction: the identity, or the status to refuse the
    /// request with. It yields what optional extraction yields, and refuses
    /// where that is nothing, whatever the reason.
    pub fn mandatory(self) -> (outcome: Result<User, u16>)
        ensures
            match optional_identity(self@) {
                Some(user) => outcome is Ok && outcome->Ok_0@ == user,
                None => outcome == Err::<User, u16>(STATUS_UNAUTHORIZED),
            },
    {
        match self.optional() {
            Some(user) => Ok(user),
            None => Err(STATUS_UNAUTHORIZED),
        }
    }
}

} // verus!
