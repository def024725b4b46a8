//! One invocation as a state machine: four phases in a line, each of which
//! either moves on to the next or aborts. The machine decides; whoever drives
//! it performs the fetch and the write-back and reports what came of them.

use vstd::prelude::*;
use crate::error::{ErrorKind, ErrorModel, FetchCause, FetchCauseModel, HandlerError};
use crate::handler::{accept, accepted, interpret, interpreted, respond, responded};
use crate::model::{
    FetchRequest, FetchRequestModel, FetchResponse, FetchResponseModel, FetchedContent,
    FetchedModel, InvocationEvent, InvocationModel, ResponseSubmission, SubmissionModel,
};

verus! {

/// Where an invocation stands.
#[derive(Debug, Clone, PartialEq, Eq)]
pub enum State {
    /// Nothing has been read yet.
    Parsing,
    /// The fetch has been asked for and has not answered.
    Fetching { output_route: String, output_token: String },
    /// The content is here and has not been transformed.
    Transforming { output_route: String, output_token: String, fetched: FetchedContent },
    /// The write-back has been asked for and has not answered.
    Submitting,
    /// The write-back was accepted.
    Completed,
    /// The invocation failed; nothing more is done.
    Aborted { kind: ErrorKind },
}

/// A [`State`] as a mathematical value.
pub enum StateModel {
    Parsing,
    Fetching { output_route: Seq<char>, output_token: Seq<char> },
    Transforming { output_route: Seq<char>, output_token: Seq<char>, fetched: FetchedModel },
    Submitting,
    Completed,
    Aborted { kind: ErrorKind },
}

impl View for State {
    type V = StateModel;

    open spec fn view(&self) -> StateModel {
        match self {
            State::Parsing => StateModel::Parsing,
            State::Fetching { output_route, output_token } => StateModel::Fetching {
                output_route: output_route@,
                output_token: output_token@,
            },
            State::Transforming { output_route, output_token, fetched } => StateModel::Transforming {
                output_route: output_route@,
                output_token: output_token@,
                fetched: fetched@,
            },
            State::Submitting => StateModel::Submitting,
            State::Completed => StateModel::Completed,
            State::Aborted { kind } => StateModel::Aborted { kind: *kind },
        }
    }
}

/// What the driver reports to the machine.
#[derive(Debug, Clone, PartialEq, Eq)]
pub enum Event {
    /// The platform invoked the handler.
    Invoked(InvocationEvent),
    /// The fetch was answered.
    FetchReturned(FetchResponse),
    /// The fetch failed in transport; `reason` is what the client said.
    FetchFailed { reason: String },
    /// The driver had nothing to do and hands control back.
    Resumed,
    /// The write-back was accepted.
    SubmissionAccepted,
    /// The write-back failed.
    SubmissionFailed { cause: String },
}

/// An [`Event`] as a mathematical value.
pub enum EventModel {
    Invoked(InvocationModel),
    FetchReturned(FetchResponseModel),
    FetchFailed { reason: Seq<char> },
    Resumed,
    SubmissionAccepted,
    SubmissionFailed { cause: Seq<char> },
}

impl View for Event {
    type V = EventModel;

    open spec fn view(&self) -> EventModel {
        match self {
            Event::Invoked(event) => EventModel::Invoked(event@),
            Event::FetchReturned(response) => EventModel::FetchReturned(response@),
            Event::FetchFailed { reason } => EventModel::FetchFailed { reason: reason@ },
            Event::Resumed => EventModel::Resumed,
            Event::SubmissionAccepted => EventModel::SubmissionAccepted,
            Event::SubmissionFailed { cause } => EventModel::SubmissionFailed { cause: cause@ },
        }
    }
}

/// What the machine asks of the driver.
#[derive(Debug, Clone, PartialEq, Eq)]
pub enum Action {
    /// Send this GET and report `FetchReturned` or `FetchFailed`.
    Fetch(FetchRequest),
    /// Nothing to send: report `Resumed`.
    Resume,
    /// Send this write-back, once, and report `SubmissionAccepted` or
    /// `SubmissionFailed`.
    Submit(ResponseSubmission),
    /// Report success to the invoker.
    Succeed,
    /// Report this failure to the invoker.
    Fail(HandlerError),
    /// The event did not fit the state; nothing changed.
    Ignore,
}

/// An [`Action`] as a mathematical value.
pub enum ActionModel {
    Fetch(FetchRequestModel),
    Resume,
    Submit(SubmissionModel),
    Succeed,
    Fail(ErrorModel),
    Ignore,
}

impl View for Action {
    type V = ActionModel;

    open spec fn view(&self) -> ActionModel {
        match self {
            Action::Fetch(request) => ActionModel::Fetch(request@),
            Action::Resume => ActionModel::Resume,
            Action::Submit(submission) => ActionModel::Submit(submission@),
            Action::Succeed => ActionModel::Succeed,
            Action::Fail(error) => ActionModel::Fail(error@),
            Action::Ignore => ActionModel::Ignore,
        }
    }
}

/// The step that every failure takes: to `Aborted`, reporting the failure.
pub open spec fn aborted(error: ErrorModel) -> (StateModel, ActionModel) {
    (StateModel::Aborted { kind: error.kind() }, ActionModel::Fail(error))
}

/// The machine's transition relation, as a function.
pub open spec fn next(state: StateModel, event: EventModel) -> (StateModel, ActionModel) {
    match (state, event) {
        (StateModel::Parsing, EventModel::Invoked(invocation)) => match interpreted(invocation) {
            Ok(addressing) => (
                StateModel::Fetching {
                    output_route: addressing.output_route,
                    output_token: addressing.output_token,
                },
                ActionModel::Fetch(
                    FetchRequestModel {
                        url: addressing.source_url,
                        range: addressing.requested_range,
                    },
                ),
            ),
            Err(error) => aborted(error),
        },
        (
            StateModel::Fetching { output_route, output_token },
            EventModel::FetchReturned(response),
        ) => match accepted(response) {
            Ok(fetched) => (
                StateModel::Transforming { output_route, output_token, fetched },
                ActionModel::Resume,
            ),
            Err(error) => aborted(error),
        },
        (StateModel::Fetching { .. }, EventModel::FetchFailed { reason }) => aborted(
            ErrorModel::Fetch { cause: FetchCauseModel::Transport { reason } },
        ),
        (
            StateModel::Transforming { output_route, output_token, fetched },
            EventModel::Resumed,
        ) => match responded(output_route, output_token, fetched) {
            Ok(submission) => (StateModel::Submitting, ActionModel::Submit(submission)),
            Err(error) => aborted(error),
        },
        (StateModel::Submitting, EventModel::SubmissionAccepted) => (
            StateModel::Completed,
            ActionModel::Succeed,
        ),
        (StateModel::Submitting, EventModel::SubmissionFailed { cause }) => aborted(
            ErrorModel::Submission { cause },
        ),
        _ => (state, ActionModel::Ignore),
    }
}

/// Aborts with `error`.
fn abort(error: HandlerError) -> (out: (State, Action))
    ensures
        (out.0@, out.1@) == aborted(error@),
{
    (State::Aborted { kind: error.kind() }, Action::Fail(error))
}

/// Takes one step: the state after `event`, and what the driver is to do
/// next. An event that does not belong to the state changes nothing.
pub fn step(state: State, event: Event) -> (out: (State, Action))
    ensures
        (out.0@, out.1@) == next(state@, event@),
{
    match state {
        State::Parsing => match event {
            Event::Invoked(invocation) => match interpret(invocation) {
                Ok(addressing) => (
                    State::Fetching {
                        output_route: addressing.output_route,
                        output_token: addressing.output_token,
                    },
                    Action::Fetch(
                        FetchRequest {
                            url: addressing.source_url,
                            range: addressing.requested_range,
                        },
                    ),
                ),
                Err(error) => abort(error),
            },
            _ => (State::Parsing, Action::Ignore),
        },
        State::Fetching { output_route, output_token } => match event {
            Event::FetchReturned(response) => match accept(response) {
                Ok(fetched) => (
                    State::Transforming { output_route, output_token, fetched },
                    Action::Resume,
                ),
                Err(error) => abort(error),
            },
            Event::FetchFailed { reason } => abort(
                HandlerError::Fetch { cause: FetchCause::Transport { reason } },
            ),
            _ => (State::Fetching { output_route, output_token }, Action::Ignore),
        },
        State::Transforming { output_route, output_token, fetched } => match event {
            Event::Resumed => match respond(output_route, output_token, fetched) {
                Ok(submission) => (State::Submitting, Action::Submit(submission)),
                Err(error) => abort(error),
            },
            _ => (State::Transforming { output_route, output_token, fetched }, Action::Ignore),
        },
        State::Submitting => match event {
            Event::SubmissionAccepted => (State::Completed, Action::Succeed),
            Event::SubmissionFailed { cause } => abort(HandlerError::Submission { cause }),
            _ => (State::Submitting, Action::Ignore),
        },
        State::Completed => (State::Completed, Action::Ignore),
        State::Aborted { kind } => (State::Aborted { kind }, Action::Ignore),
    }
}

} // verus!
