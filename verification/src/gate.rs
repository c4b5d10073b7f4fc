//! The authentication gate: what to do next for one login attempt, given what
//! has happened so far.
//!
//! Nothing here talks to the host or to the service. A step names the next
//! action, the caller carries the action out and reports what came of it as
//! an event, and so on until the action is to finish with an outcome.

use crate::attempt::{
    escalates, is_escalation, lemma_unknown_service_is_no_escalation, name_or_unknown,
    or_unknown, text_of, LoginAttempt, LoginAttemptView, UNKNOWN,
};
use crate::challenge::{
    generate_code, is_code, lemma_number_in_range_is_code, Challenge, ChallengeView, LOWEST_CODE,
};
use crate::text::decimal;
use crate::verdict::STATUS_FORBIDDEN;
use vstd::prelude::*;

verus! {

/// Seconds after which a request to the service counts as failed.
pub const REQUEST_TIMEOUT_SECS: u64 = 5;

/// How an attempt ends.
#[derive(Clone, Copy, Debug, PartialEq, Eq, Structural)]
pub enum Outcome {
    /// The login goes on.
    Allow,
    /// The login is rejected.
    Deny,
    /// The attempt could not be decided: something failed on the way.
    ServiceError,
}

/// What came of a request to the service.
#[derive(Clone, Copy, Debug, PartialEq, Eq, Structural)]
pub enum ServiceReply {
    /// The service answered, with this status code.
    Answered { status: u16 },
    /// No answer came: the request failed or timed out.
    Unreachable,
}

/// How far an attempt has come.
#[derive(Debug, PartialEq, Eq)]
pub enum GateState {
    /// Nothing is known yet.
    Start,
    /// The service is being asked whether `address` is locked out.
    QueryingBan { address: String },
    /// The address is clear; the host is being asked who logs in to what.
    Identifying { address: String },
    /// An escalation; the host is being asked for the command.
    ReadingCommand { address: String, username: String, service: String },
    /// The challenge is with the service for dispatch.
    Dispatching { challenge: Challenge },
    /// The human is being asked for the code.
    Prompting { challenge: Challenge },
    /// The failed attempt is being reported to the service.
    Reporting,
    /// The attempt is decided.
    Done { outcome: Outcome },
}

/// What happened since the last action.
#[derive(Debug, PartialEq, Eq)]
pub enum GateEvent {
    /// The address of the client, if the host knows it.
    Address { address: Option<String> },
    /// The name of the user and of the service, as far as the host knows them.
    Identity { username: Option<String>, service: Option<String> },
    /// The command of the escalation, if the host's environment holds one.
    Command { command: Option<String> },
    /// What came of the request to the service.
    Reply { reply: ServiceReply },
    /// What the human typed, if anything.
    Input { text: Option<String> },
    /// Something failed on the caller's side.
    Fault,
}

/// What the caller has to do next.
#[derive(Debug, PartialEq, Eq)]
pub enum GateAction {
    /// Ask the host for the address of the client.
    ResolveAddress,
    /// Ask the service whether `address` is locked out.
    QueryBan { address: String },
    /// Ask the host for the name of the user and of the service.
    ResolveIdentity,
    /// Ask the host's environment for the command of the escalation.
    ReadCommand,
    /// Hand the challenge to the service for dispatch.
    Dispatch { challenge: Challenge },
    /// Ask the human for the code, without echo.
    Prompt,
    /// Report to the service that `address` failed the challenge.
    ReportFailure { address: String },
    /// Return `outcome` to the host.
    Finish { outcome: Outcome },
}

/// A state as plain values.
pub enum GateStateView {
    Start,
    QueryingBan { address: Seq<char> },
    Identifying { address: Seq<char> },
    ReadingCommand { address: Seq<char>, username: Seq<char>, service: Seq<char> },
    Dispatching { challenge: ChallengeView },
    Prompting { challenge: ChallengeView },
    Reporting,
    Done { outcome: Outcome },
}

/// An event as plain values.
pub enum GateEventView {
    Address { address: Option<Seq<char>> },
    Identity { username: Option<Seq<char>>, service: Option<Seq<char>> },
    Command { command: Option<Seq<char>> },
    Reply { reply: ServiceReply },
    Input { text: Option<Seq<char>> },
    Fault,
}

/// An action as plain values.
pub enum GateActionView {
    ResolveAddress,
    QueryBan { address: Seq<char> },
    ResolveIdentity,
    ReadCommand,
    Dispatch { challenge: ChallengeView },
    Prompt,
    ReportFailure { address: Seq<char> },
    Finish { outcome: Outcome },
}

impl View for GateState {
    type V = GateStateView;

    open spec fn view(&self) -> GateStateView {
        match self {
            GateState::Start => GateStateView::Start,
            GateState::QueryingBan { address } => GateStateView::QueryingBan { address: address@ },
            GateState::Identifying { address } => GateStateView::Identifying { address: address@ },
            GateState::ReadingCommand { address, username, service } => {
                GateStateView::ReadingCommand {
                    address: address@,
                    username: username@,
                    service: service@,
                }
            },
            GateState::Dispatching { challenge } => GateStateView::Dispatching {
                challenge: challenge@,
            },
            GateState::Prompting { challenge } => GateStateView::Prompting { challenge: challenge@ },
            GateState::Reporting => GateStateView::Reporting,
            GateState::Done { outcome } => GateStateView::Done { outcome: *outcome },
        }
    }
}

impl View for GateEvent {
    type V = GateEventView;

    open spec fn view(&self) -> GateEventView {
        match self {
            GateEvent::Address { address } => GateEventView::Address { address: text_of(*address) },
            GateEvent::Identity { username, service } => GateEventView::Identity {
                username: text_of(*username),
                service: text_of(*service),
            },
            GateEvent::Command { command } => GateEventView::Command { command: text_of(*command) },
            GateEvent::Reply { reply } => GateEventView::Reply { reply: *reply },
            GateEvent::Input { text } => GateEventView::Input { text: text_of(*text) },
            GateEvent::Fault => GateEventView::Fault,
        }
    }
}

impl View for GateAction {
    type V = GateActionView;

    open spec fn view(&self) -> GateActionView {
        match self {
            GateAction::ResolveAddress => GateActionView::ResolveAddress,
            GateAction::QueryBan { address } => GateActionView::QueryBan { address: address@ },
            GateAction::ResolveIdentity => GateActionView::ResolveIdentity,
            GateAction::ReadCommand => GateActionView::ReadCommand,
            GateAction::Dispatch { challenge } => GateActionView::Dispatch { challenge: challenge@ },
            GateAction::Prompt => GateActionView::Prompt,
            GateAction::ReportFailure { address } => GateActionView::ReportFailure {
                address: address@,
            },
            GateAction::Finish { outcome } => GateActionView::Finish { outcome: *outcome },
        }
    }
}

impl GateStateView {
    /// What holds of every state that an attempt comes to: the command is
    /// asked for in an escalation only, and a challenge that is under way has
    /// a code of six digits and names a command in an escalation only.
    pub open spec fn wf(self) -> bool {
        match self {
            GateStateView::ReadingCommand { service, .. } => is_escalation(service),
            GateStateView::Dispatching { challenge } => challenge.wf(),
            GateStateView::Prompting { challenge } => challenge.wf(),
            _ => true,
        }
    }

    /// The most steps that an attempt in this state still takes.
    pub open spec fn steps_left(self) -> nat {
        match self {
            GateStateView::Start => 7,
            GateStateView::QueryingBan { .. } => 6,
            GateStateView::Identifying { .. } => 5,
            GateStateView::ReadingCommand { .. } => 4,
            GateStateView::Dispatching { .. } => 3,
            GateStateView::Prompting { .. } => 2,
            GateStateView::Reporting => 1,
            GateStateView::Done { .. } => 0,
        }
    }
}

/// The attempt ends with `outcome`.
pub open spec fn finish(outcome: Outcome) -> (GateStateView, GateActionView) {
    (GateStateView::Done { outcome }, GateActionView::Finish { outcome })
}

/// The challenge goes to the service.
pub open spec fn dispatch(challenge: ChallengeView) -> (GateStateView, GateActionView) {
    (GateStateView::Dispatching { challenge }, GateActionView::Dispatch { challenge })
}

/// Whether the service answered that the address is locked out.
pub open spec fn says_forbidden(reply: ServiceReply) -> bool {
    reply == (ServiceReply::Answered { status: STATUS_FORBIDDEN })
}

/// The state that follows `state` on `event`, and the action to take then.
/// Where a challenge is issued, `code` is its code.
pub open spec fn transition(state: GateStateView, event: GateEventView, code: Seq<char>) -> (
    GateStateView,
    GateActionView,
) {
    match (state, event) {
        (GateStateView::Done { outcome }, _) => finish(outcome),
        (_, GateEventView::Fault) => finish(Outcome::ServiceError),
        (GateStateView::Start, GateEventView::Address { address }) => (
            GateStateView::QueryingBan { address: or_unknown(address) },
            GateActionView::QueryBan { address: or_unknown(address) },
        ),
        (GateStateView::QueryingBan { address }, GateEventView::Reply { reply }) => {
            if reply is Unreachable {
                finish(Outcome::Allow)
            } else if says_forbidden(reply) {
                finish(Outcome::Deny)
            } else {
                (GateStateView::Identifying { address }, GateActionView::ResolveIdentity)
            }
        },
        (GateStateView::Identifying { address }, GateEventView::Identity { username, service }) => {
            if is_escalation(or_unknown(service)) {
                (
                    GateStateView::ReadingCommand {
                        address,
                        username: or_unknown(username),
                        service: or_unknown(service),
                    },
                    GateActionView::ReadCommand,
                )
            } else {
                dispatch(
                    ChallengeView {
                        code,
                        owner: LoginAttemptView::described(
                            address,
                            or_unknown(username),
                            or_unknown(service),
                            None,
                        ),
                    },
                )
            }
        },
        (
            GateStateView::ReadingCommand { address, username, service },
            GateEventView::Command { command },
        ) => dispatch(
            ChallengeView {
                code,
                owner: LoginAttemptView::described(address, username, service, command),
            },
        ),
        (GateStateView::Dispatching { challenge }, GateEventView::Reply { reply }) => {
            if reply is Unreachable {
                finish(Outcome::Allow)
            } else {
                (GateStateView::Prompting { challenge }, GateActionView::Prompt)
            }
        },
        (GateStateView::Prompting { challenge }, GateEventView::Input { text }) => {
            if challenge.accepts(text) {
                finish(Outcome::Allow)
            } else {
                (
                    GateStateView::Reporting,
                    GateActionView::ReportFailure { address: challenge.owner.address },
                )
            }
        },
        (GateStateView::Reporting, GateEventView::Reply { reply }) => finish(Outcome::Deny),
        _ => finish(Outcome::ServiceError),
    }
}

/// Whether the step from `state` on `event` issues a challenge.
pub open spec fn issues_challenge(state: GateStateView, event: GateEventView) -> bool {
    transition(state, event, Seq::empty()).1 is Dispatch
}

/// Where an attempt begins, and its first action.
pub fn start() -> (first: (GateState, GateAction))
    ensures
        first.0@ == GateStateView::Start,
        first.1@ == GateActionView::ResolveAddress,
{
    (GateState::Start, GateAction::ResolveAddress)
}

fn finished(outcome: Outcome) -> (next: (GateState, GateAction))
    ensures
        (next.0@, next.1@) == finish(outcome),
{
    (GateState::Done { outcome }, GateAction::Finish { outcome })
}

fn dispatched(code: String, owner: LoginAttempt) -> (next: (GateState, GateAction))
    ensures
        (next.0@, next.1@) == dispatch(ChallengeView { code: code@, owner: owner@ }),
{
    let challenge = Challenge { code, owner };
    let sent = challenge.clone();
    (GateState::Dispatching { challenge }, GateAction::Dispatch { challenge: sent })
}

/// The state that follows `state` on `event`, and the action to take then.
/// Where a challenge is issued, `code` is its code.
pub fn advance(state: GateState, event: GateEvent, code: String) -> (next: (GateState, GateAction))
    ensures
        (next.0@, next.1@) == transition(state@, event@, code@),
{
    match state {
        GateState::Done { outcome } => finished(outcome),
        GateState::Start => match event {
            GateEvent::Address { address } => {
                let address = name_or_unknown(address);
                let asked = address.clone();
                (GateState::QueryingBan { address }, GateAction::QueryBan { address: asked })
            },
            _ => finished(Outcome::ServiceError),
        },
        GateState::QueryingBan { address } => match event {
            GateEvent::Reply { reply } => match reply {
                ServiceReply::Unreachable => finished(Outcome::Allow),
                ServiceReply::Answered { status } => {
                    if status == STATUS_FORBIDDEN {
                        finished(Outcome::Deny)
                    } else {
                        (GateState::Identifying { address }, GateAction::ResolveIdentity)
                    }
                },
            },
            _ => finished(Outcome::ServiceError),
        },
        GateState::Identifying { address } => match event {
            GateEvent::Identity { username, service } => {
                let username = name_or_unknown(username);
                let service = name_or_unknown(service);
                if escalates(service.as_str()) {
                    (
                        GateState::ReadingCommand { address, username, service },
                        GateAction::ReadCommand,
                    )
                } else {
                    dispatched(code, LoginAttempt::describe(address, username, service, None))
                }
            },
            _ => finished(Outcome::ServiceError),
        },
        GateState::ReadingCommand { address, username, service } => match event {
            GateEvent::Command { command } => dispatched(
                code,
                LoginAttempt::describe(address, username, service, command),
            ),
            _ => finished(Outcome::ServiceError),
        },
        GateState::Dispatching { challenge } => match event {
            GateEvent::Reply { reply } => match reply {
                ServiceReply::Unreachable => finished(Outcome::Allow),
                ServiceReply::Answered { status } => (
                    GateState::Prompting { challenge },
                    GateAction::Prompt,
                ),
            },
            _ => finished(Outcome::ServiceError),
        },
        GateState::Prompting { challenge } => match event {
            GateEvent::Input { text } => {
                if challenge.accepts(&text) {
                    finished(Outcome::Allow)
                } else {
                    (
                        GateState::Reporting,
                        GateAction::ReportFailure { address: challenge.owner.address },
                    )
                }
            },
            _ => finished(Outcome::ServiceError),
        },
        GateState::Reporting => match event {
            GateEvent::Reply { reply } => finished(Outcome::Deny),
            _ => finished(Outcome::ServiceError),
        },
    }
}

/// The state that follows `state` on `event`, and the action to take then.
/// Where a challenge is issued, its code is drawn at random; a step that
/// cannot issue one draws nothing.
pub fn step(state: GateState, event: GateEvent) -> (next: (GateState, GateAction))
    ensures
        exists|code: Seq<char>|
            is_code(code) && (next.0@, next.1@) == #[trigger] transition(state@, event@, code),
        !issues_challenge(state@, event@) ==> forall|code: Seq<char>|
            (next.0@, next.1@) == #[trigger] transition(state@, event@, code),
        state@.wf() ==> next.0@.wf(),
{
    proof {
        law_code_matters_to_a_new_challenge_only(state@, event@);
        assert forall|code: Seq<char>| is_code(code) && state@.wf() implies (#[trigger] transition(
            state@,
            event@,
            code,
        )).0.wf() by {
            law_states_stay_well_formed(state@, event@, code);
        }
    }
    match state {
        GateState::Identifying { .. } | GateState::ReadingCommand { .. } => {
            let code = generate_code();
            advance(state, event, code)
        },
        _ => {
            proof {
                lemma_number_in_range_is_code(LOWEST_CODE);
                assert(!issues_challenge(state@, event@));
                assert(transition(state@, event@, decimal(LOWEST_CODE as nat)) == transition(
                    state@,
                    event@,
                    Seq::empty(),
                ));
            }
            advance(state, event, String::new())
        },
    }
}

/// The second entry point of the host, which sets up credentials: there is
/// nothing to set up, and the host is told to go on.
pub fn prepare_credentials() -> (outcome: Outcome)
    ensures
        outcome == Outcome::Allow,
{
    Outcome::Allow
}

/// The code that a step is handed reaches nothing but the challenge that the
/// step issues: a step that issues none goes the same way whatever the code.
pub proof fn law_code_matters_to_a_new_challenge_only(state: GateStateView, event: GateEventView)
    ensures
        forall|a: Seq<char>, b: Seq<char>|
            (#[trigger] transition(state, event, a).1 is Dispatch) == (#[trigger] transition(
                state,
                event,
                b,
            ).1 is Dispatch),
        !issues_challenge(state, event) ==> forall|a: Seq<char>, b: Seq<char>|
            #[trigger] transition(state, event, a) == #[trigger] transition(state, event, b),
{
}

/// A challenge that a step issues carries the code that the step was handed,
/// and names a command in an escalation only.
pub proof fn law_issued_challenge(state: GateStateView, event: GateEventView, code: Seq<char>)
    ensures
        (transition(state, event, code).1 matches GateActionView::Dispatch { challenge } ==> {
            &&& challenge.code == code
            &&& challenge.owner.wf()
            &&& transition(state, event, code).0 == GateStateView::Dispatching { challenge }
        }),
{
}

/// An attempt to a service that the host cannot name is no escalation: its
/// challenge is issued at once, without a command, and the host's environment
/// is not read.
pub proof fn law_unnamed_service_is_no_escalation(
    address: Seq<char>,
    username: Option<Seq<char>>,
    code: Seq<char>,
)
    ensures
        transition(
            GateStateView::Identifying { address },
            GateEventView::Identity { username, service: None },
            code,
        ) == dispatch(
            ChallengeView {
                code,
                owner: LoginAttemptView {
                    username: or_unknown(username),
                    address,
                    service: UNKNOWN@,
                    command: None,
                },
            },
        ),
{
    lemma_unknown_service_is_no_escalation();
}

/// Where the service cannot be reached, for the ban query or for the dispatch,
/// the attempt is allowed.
pub proof fn law_unreachable_service_allows(state: GateStateView, code: Seq<char>)
    requires
        state is QueryingBan || state is Dispatching,
    ensures
        transition(state, GateEventView::Reply { reply: ServiceReply::Unreachable }, code)
            == finish(Outcome::Allow),
{
}

/// Where the service answers the ban query with forbidden, the attempt is
/// denied at once: no challenge is issued and no failure is reported.
pub proof fn law_lockout_denies_without_challenge(address: Seq<char>, code: Seq<char>)
    ensures
        transition(
            GateStateView::QueryingBan { address },
            GateEventView::Reply { reply: ServiceReply::Answered { status: STATUS_FORBIDDEN } },
            code,
        ) == finish(Outcome::Deny),
{
}

/// The input decides a challenge: the attempt is allowed where the input,
/// without the whitespace around it, is the code, and no failure is reported
/// then; on any other input, or none, the failure of the owner's address is
/// reported, and the attempt is denied whatever comes of the report.
pub proof fn law_input_decides(
    challenge: ChallengeView,
    text: Option<Seq<char>>,
    reply: ServiceReply,
    code: Seq<char>,
)
    ensures
        challenge.accepts(text) ==> transition(
            GateStateView::Prompting { challenge },
            GateEventView::Input { text },
            code,
        ) == finish(Outcome::Allow),
        !challenge.accepts(text) ==> transition(
            GateStateView::Prompting { challenge },
            GateEventView::Input { text },
            code,
        ) == (
            GateStateView::Reporting,
            GateActionView::ReportFailure { address: challenge.owner.address },
        ),
        transition(GateStateView::Reporting, GateEventView::Reply { reply }, code) == finish(
            Outcome::Deny,
        ),
{
}

/// Every state that an attempt comes to is well formed: the first one is, and
/// a step with a code of six digits leads from a well-formed state to one.
pub proof fn law_states_stay_well_formed(
    state: GateStateView,
    event: GateEventView,
    code: Seq<char>,
)
    requires
        state.wf(),
        is_code(code),
    ensures
        GateStateView::Start.wf(),
        transition(state, event, code).0.wf(),
{
}

/// An attempt ends: each step of an attempt that is not decided leaves fewer
/// steps to take, seven at most from the start, and the action of a step is
/// to finish exactly when the step decides the attempt, with that outcome.
pub proof fn law_attempt_ends(state: GateStateView, event: GateEventView, code: Seq<char>)
    ensures
        GateStateView::Start.steps_left() == 7,
        !(state is Done) ==> transition(state, event, code).0.steps_left() < state.steps_left(),
        transition(state, event, code).0 is Done <==> transition(state, event, code).1 is Finish,
        (transition(state, event, code).0 matches GateStateView::Done { outcome } ==> transition(
            state,
            event,
            code,
        ).1 == GateActionView::Finish { outcome }),
{
}

/// An attempt that is decided stays decided, whatever happens.
pub proof fn law_decided_stays_decided(outcome: Outcome, event: GateEventView, code: Seq<char>)
    ensures
        transition(GateStateView::Done { outcome }, event, code) == finish(outcome),
{
}

} // verus!
