//! What holds of every request, proved from the transition function.

use crate::bearer::credential_of;
use crate::bearer::credential_of_header;
use crate::bearer::is_text;
use crate::bearer::names_bearer_scheme;
use crate::extractor::ActionView;
use crate::extractor::EventView;
use crate::extractor::ExtractionView;
use crate::extractor::ExtractorView;
use crate::identity::identity_of;
use crate::identity::key_identifier;
use crate::identity::Rejection;
use crate::identity::UserView;
use crate::identity::VerdictView;
use crate::identity::STATUS_OK;
use crate::routes::debug_text;
use crate::routes::occurs_in;
use crate::routes::personal_greeting;
use crate::routes::protected_message;
use crate::routes::protected_response;
use crate::routes::public_response;
use crate::routes::unauthorized;
use crate::routes::GUEST_GREETING;
use crate::routes::PROTECTED_OPENING;
use crate::routes::WELCOME_OPENING;
use vstd::prelude::*;

verus! {

/// Whether the event at `at` is a verdict that says `valid` and gives the
/// account of `extractor` the identity `user`.
pub open spec fn accepted_at(
    extractor: ExtractorView,
    events: Seq<EventView>,
    at: int,
    user: UserView,
) -> bool {
    &&& 0 <= at < events.len()
    &&& events[at] matches EventView::Verdict(verdict)
    &&& verdict.valid
    &&& user == identity_of(extractor.record, verdict)
}

/// Whether the event at `at` reports a credential from the header.
pub open spec fn presented_at(events: Seq<EventView>, at: int) -> bool {
    &&& 0 <= at < events.len()
    &&& events[at] matches EventView::Header(Some(_))
}

/// `Authenticated` and `Rejected` are final: whatever is reported
/// afterwards, the state stays what it is and no verification call is asked
/// for.
pub proof fn lemma_terminal_is_final(
    extractor: ExtractorView,
    state: ExtractionView,
    events: Seq<EventView>,
)
    requires
        state.is_terminal(),
    ensures
        extractor.run(state, events) == state,
        extractor.calls(state, events) == 0,
    decreases events.len(),
{
    if events.len() > 0 {
        lemma_terminal_is_final(extractor, state, events.drop_first());
    }
}

/// Once the verification call has been asked for, it is not asked for
/// again.
pub proof fn lemma_no_second_call(
    extractor: ExtractorView,
    state: ExtractionView,
    events: Seq<EventView>,
)
    requires
        state is Verifying,
    ensures
        extractor.calls(state, events) == 0,
    decreases events.len(),
{
    if events.len() > 0 {
        let next = extractor.step(state, events[0]).0;
        if next.is_terminal() {
            lemma_terminal_is_final(extractor, next, events.drop_first());
        } else {
            lemma_no_second_call(extractor, next, events.drop_first());
        }
    }
}

/// A request costs at most one call to the verification service, whatever
/// is reported and in whatever order: there is no retry.
pub proof fn lemma_at_most_one_call(extractor: ExtractorView, events: Seq<EventView>)
    ensures
        extractor.calls(ExtractionView::AwaitHeader, events) <= 1,
    decreases events.len(),
{
    if events.len() > 0 {
        let next = extractor.step(ExtractionView::AwaitHeader, events[0]).0;
        if next is Verifying {
            lemma_no_second_call(extractor, next, events.drop_first());
        } else if next.is_terminal() {
            lemma_terminal_is_final(extractor, next, events.drop_first());
        } else {
            lemma_at_most_one_call(extractor, events.drop_first());
        }
    }
}

/// An extraction that waits for the verdict ends with an identity only
/// where a verdict that says `valid` was reported, and the identity is the
/// one which that verdict gives.
pub proof fn lemma_verdict_behind_identity(
    extractor: ExtractorView,
    state: ExtractionView,
    events: Seq<EventView>,
    user: UserView,
)
    requires
        state is Verifying,
        extractor.run(state, events) == ExtractionView::Authenticated(user),
    ensures
        exists|at: int| accepted_at(extractor, events, at, user),
    decreases events.len(),
{
    let rest = events.drop_first();
    let next = extractor.step(state, events[0]).0;
    if next.is_terminal() {
        lemma_terminal_is_final(extractor, next, rest);
        assert(accepted_at(extractor, events, 0, user));
    } else {
        lemma_verdict_behind_identity(extractor, next, rest, user);
        let at = choose|at: int| accepted_at(extractor, rest, at, user);
        assert(accepted_at(extractor, events, at + 1, user));
    }
}

/// No identity without a successful verdict. If a request ends with an
/// identity, then a credential was read from its header, a later verdict
/// said `valid`, and the identity is the one which that verdict gives. This
/// holds of every series of events.
pub proof fn lemma_identity_needs_valid_verdict(
    extractor: ExtractorView,
    events: Seq<EventView>,
    user: UserView,
)
    requires
        extractor.run(ExtractionView::AwaitHeader, events) == ExtractionView::Authenticated(user),
    ensures
        exists|header: int, verdict: int|
            header < verdict && presented_at(events, header) && accepted_at(
                extractor,
                events,
                verdict,
                user,
            ),
    decreases events.len(),
{
    let rest = events.drop_first();
    let next = extractor.step(ExtractionView::AwaitHeader, events[0]).0;
    if next is Verifying {
        lemma_verdict_behind_identity(extractor, next, rest, user);
        let at = choose|at: int| accepted_at(extractor, rest, at, user);
        assert(presented_at(events, 0) && accepted_at(extractor, events, at + 1, user));
    } else if next.is_terminal() {
        lemma_terminal_is_final(extractor, next, rest);
    } else {
        lemma_identity_needs_valid_verdict(extractor, rest, user);
        let (header, verdict) = choose|header: int, verdict: int|
            header < verdict && presented_at(rest, header) && accepted_at(
                extractor,
                rest,
                verdict,
                user,
            );
        assert(presented_at(events, header + 1) && accepted_at(
            extractor,
            events,
            verdict + 1,
            user,
        ));
    }
}

/// Every request comes to exactly one end. Once the header has been read
/// and, where a call was asked for, its outcome reported, the extraction is
/// either authenticated or rejected, never both and never neither.
pub proof fn lemma_one_end(
    extractor: ExtractorView,
    credential: Option<Seq<char>>,
    reply: EventView,
)
    requires
        reply.is_reply(),
    ensures
        extractor.outcome(credential, reply).is_terminal(),
        extractor.outcome(credential, reply) is Authenticated != extractor.outcome(
            credential,
            reply,
        ) is Rejected,
{
}

/// A request without an `Authorization` header is refused on the protected
/// route, and no verification call is made for it. Since the handler takes
/// an identity and the request has none, the handler does not run: the
/// response is the bare refusal.
pub proof fn lemma_no_header_is_refused(extractor: ExtractorView, reply: EventView)
    ensures
        credential_of_header(None) is None,
        extractor.step(ExtractionView::AwaitHeader, EventView::Header(None)) == (
            ExtractionView::Rejected(Rejection::MissingCredential),
            ActionView::Finish,
        ),
        extractor.outcome(credential_of_header(None), reply) == ExtractionView::Rejected(
            Rejection::MissingCredential,
        ),
        protected_response(extractor.outcome(credential_of_header(None), reply))
            == unauthorized(),
{
}

/// A header that is of another scheme, or that is not text, is no
/// credential: the request is treated as one without a header.
pub proof fn lemma_unusable_header_is_refused(
    extractor: ExtractorView,
    value: Seq<u8>,
    reply: EventView,
)
    requires
        !names_bearer_scheme(value) || !is_text(value),
    ensures
        credential_of(value) is None,
        extractor.outcome(credential_of_header(Some(value)), reply) == ExtractionView::Rejected(
            Rejection::MissingCredential,
        ),
        protected_response(extractor.outcome(credential_of_header(Some(value)), reply))
            == unauthorized(),
{
}

/// The answer of `/protected` shows every field of the identity, each as
/// `Debug` writes it and in one piece.
pub proof fn lemma_answer_shows_identity(user: UserView)
    ensures
        occurs_in(debug_text(user.id), protected_message(user)),
        occurs_in(debug_text(user.username), protected_message(user)),
        occurs_in(debug_text(user.key_id), protected_message(user)),
{
    let id = debug_text(user.id);
    let username = debug_text(user.username);
    let key_id = debug_text(user.key_id);
    let message = protected_message(user);
    let id_at: int = (PROTECTED_OPENING@.len() + "User { id: "@.len()) as int;
    let username_at: int = id_at + id.len() + ", username: "@.len();
    let key_id_at: int = username_at + username.len() + ", key_id: "@.len();
    assert(message.subrange(id_at, id_at + id.len()) == id);
    assert(message.subrange(username_at, username_at + username.len()) == username);
    assert(message.subrange(key_id_at, key_id_at + key_id.len()) == key_id);
}

/// A credential that the verification service accepts opens the protected
/// route: the response has status 200 and shows an identity whose key
/// identifier is the verdict's.
pub proof fn lemma_valid_verdict_authenticates(
    extractor: ExtractorView,
    credential: Seq<char>,
    verdict: VerdictView,
)
    requires
        verdict.valid,
    ensures
        extractor.outcome(Some(credential), EventView::Verdict(verdict))
            == ExtractionView::Authenticated(identity_of(extractor.record, verdict)),
        identity_of(extractor.record, verdict).key_id == key_identifier(verdict),
        verdict.key_id matches Some(key) ==> identity_of(extractor.record, verdict).key_id == key,
        protected_response(
            extractor.outcome(Some(credential), EventView::Verdict(verdict)),
        ).status == STATUS_OK,
        protected_response(extractor.outcome(Some(credential), EventView::Verdict(verdict))).body
            == protected_message(identity_of(extractor.record, verdict)),
        occurs_in(
            debug_text(key_identifier(verdict)),
            protected_response(
                extractor.outcome(Some(credential), EventView::Verdict(verdict)),
            ).body,
        ),
{
    lemma_answer_shows_identity(identity_of(extractor.record, verdict));
}

/// A credential that the verification service turns down is refused on the
/// protected route.
pub proof fn lemma_invalid_verdict_is_refused(
    extractor: ExtractorView,
    credential: Seq<char>,
    verdict: VerdictView,
)
    requires
        !verdict.valid,
    ensures
        extractor.outcome(Some(credential), EventView::Verdict(verdict))
            == ExtractionView::Rejected(Rejection::InvalidCredential),
        protected_response(extractor.outcome(Some(credential), EventView::Verdict(verdict)))
            == unauthorized(),
{
}

/// Where the verification service cannot be reached, the protected route
/// refuses the request: the extractor fails closed. The client sees the
/// same response as for a credential that was turned down, while the reason
/// that is kept for the log differs and is of a higher severity.
pub proof fn lemma_unreachable_is_refused(
    extractor: ExtractorView,
    credential: Seq<char>,
    verdict: VerdictView,
)
    requires
        !verdict.valid,
    ensures
        extractor.outcome(Some(credential), EventView::Unreachable) == ExtractionView::Rejected(
            Rejection::VerificationUnreachable,
        ),
        protected_response(extractor.outcome(Some(credential), EventView::Unreachable))
            == unauthorized(),
        protected_response(extractor.outcome(Some(credential), EventView::Unreachable))
            == protected_response(
            extractor.outcome(Some(credential), EventView::Verdict(verdict)),
        ),
        extractor.outcome(Some(credential), EventView::Unreachable) != extractor.outcome(
            Some(credential),
            EventView::Verdict(verdict),
        ),
        Rejection::VerificationUnreachable.spec_severity().rank()
            > Rejection::InvalidCredential.spec_severity().rank(),
{
}

/// The public route answers everyone with status 200. A request that was
/// not authenticated, for whatever reason, gets the guest message; an
/// authenticated one gets the greeting that holds the user's name.
pub proof fn lemma_public_route_greets(
    extractor: ExtractorView,
    credential: Option<Seq<char>>,
    reply: EventView,
)
    requires
        reply.is_reply(),
    ensures
        public_response(extractor.outcome(credential, reply)).status == STATUS_OK,
        extractor.outcome(credential, reply) is Rejected ==> public_response(
            extractor.outcome(credential, reply),
        ).body == GUEST_GREETING@,
        extractor.outcome(credential, reply) is Authenticated ==> {
            &&& public_response(extractor.outcome(credential, reply)).body == personal_greeting(
                extractor.record.username,
            )
            &&& occurs_in(
                extractor.record.username,
                public_response(extractor.outcome(credential, reply)).body,
            )
        },
{
    if extractor.outcome(credential, reply) is Authenticated {
        lemma_greeting_holds_name(extractor.record.username);
    }
}

/// The personal greeting holds the user's name, in one piece.
pub proof fn lemma_greeting_holds_name(username: Seq<char>)
    ensures
        occurs_in(username, personal_greeting(username)),
{
    let greeting = personal_greeting(username);
    let at = WELCOME_OPENING@.len() as int;
    assert(greeting.subrange(at, at + username.len()) == username);
}

/// Nothing is remembered from one request to the next. Two requests with
/// the same credential each ask for a verification call of their own, with
/// the same request, and each ends as its own verdict says: the second owes
/// nothing to the first.
pub proof fn lemma_each_request_is_verified_anew(
    extractor: ExtractorView,
    credential: Seq<char>,
    first: VerdictView,
    second: VerdictView,
)
    requires
        first.valid,
        second.valid,
    ensures
        extractor.step(ExtractionView::AwaitHeader, EventView::Header(Some(credential))).1
            == ActionView::Verify(extractor.request_for(credential)),
        extractor.calls(
            ExtractionView::AwaitHeader,
            seq![EventView::Header(Some(credential)), EventView::Verdict(first)],
        ) == 1,
        extractor.calls(
            ExtractionView::AwaitHeader,
            seq![EventView::Header(Some(credential)), EventView::Verdict(second)],
        ) == 1,
        extractor.outcome(Some(credential), EventView::Verdict(first))
            == ExtractionView::Authenticated(identity_of(extractor.record, first)),
        extractor.outcome(Some(credential), EventView::Verdict(second))
            == ExtractionView::Authenticated(identity_of(extractor.record, second)),
{
    lemma_one_call_for_a_credential(extractor, credential, EventView::Verdict(first));
    lemma_one_call_for_a_credential(extractor, credential, EventView::Verdict(second));
}

/// A request whose header carries a credential asks for exactly one
/// verification call.
pub proof fn lemma_one_call_for_a_credential(
    extractor: ExtractorView,
    credential: Seq<char>,
    reply: EventView,
)
    ensures
        extractor.calls(
            ExtractionView::AwaitHeader,
            seq![EventView::Header(Some(credential)), reply],
        ) == 1,
{
    let events = seq![EventView::Header(Some(credential)), reply];
    let next = extractor.step(ExtractionView::AwaitHeader, events[0]).0;
    lemma_no_second_call(extractor, next, events.drop_first());
}

} // verus!
