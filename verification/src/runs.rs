//! Whole runs of the machine, and what holds of every one of them.

use vstd::prelude::*;
use vstd::utf8::{decode_utf8, encode_utf8, valid_utf8};
use crate::error::ErrorModel;
use crate::handler::{accepted, interpreted, is_success, STATUS_OK};
use crate::machine::{next, ActionModel, EventModel, StateModel};
use crate::model::{
    FetchRequestModel, FetchResponseModel, FetchedModel, InvocationModel, SubmissionModel,
};
use crate::text::{transformed_bytes, uppercase_of};

verus! {

/// The state that `events`, fed in order, lead to from `start`.
pub open spec fn state_after(start: StateModel, events: Seq<EventModel>) -> StateModel
    decreases events.len(),
{
    if events.len() == 0 {
        start
    } else {
        next(state_after(start, events.drop_last()), events.last()).0
    }
}

/// The action that the machine answers to event `i` of a run with.
pub open spec fn action_at(start: StateModel, events: Seq<EventModel>, i: int) -> ActionModel
    recommends
        0 <= i < events.len(),
{
    next(state_after(start, events.take(i)), events[i]).1
}

/// How far along its line a state is. Both final states are at the end.
pub open spec fn rank(state: StateModel) -> nat {
    match state {
        StateModel::Parsing => 0,
        StateModel::Fetching { .. } => 1,
        StateModel::Transforming { .. } => 2,
        StateModel::Submitting => 3,
        StateModel::Completed => 4,
        StateModel::Aborted { .. } => 4,
    }
}

/// `event` is an invocation that the interpreter accepts, with this route and
/// this token.
pub open spec fn invokes(event: EventModel, output_route: Seq<char>, output_token: Seq<char>) -> bool {
    event matches EventModel::Invoked(invocation) && interpreted(invocation) matches Ok(addressing)
        && addressing.output_route == output_route && addressing.output_token == output_token
}

/// `event` is a fetch answer that the fetcher accepts as `fetched`.
pub open spec fn answers(event: EventModel, fetched: FetchedModel) -> bool {
    event matches EventModel::FetchReturned(response) && accepted(response) == Ok::<
        FetchedModel,
        ErrorModel,
    >(fetched)
}

/// `submission` is the write-back that belongs to an invocation and a
/// successful fetch answer: route and token of the one, the descriptor of the
/// other as it came, the other's body transformed, and the fixed status.
pub open spec fn writes_back(
    submission: SubmissionModel,
    invocation: EventModel,
    answer: EventModel,
) -> bool {
    &&& invokes(invocation, submission.output_route, submission.output_token)
    &&& answer matches EventModel::FetchReturned(response)
    &&& is_success(response.status)
    &&& response.content_range == Some(submission.content_range)
    &&& transformed_bytes(response.body) == Some(submission.body)
    &&& submission.status_code == STATUS_OK
}

proof fn lemma_unfold(start: StateModel, events: Seq<EventModel>, i: int)
    requires
        0 <= i < events.len(),
    ensures
        state_after(start, events.take(i + 1)) == next(
            state_after(start, events.take(i)),
            events[i],
        ).0,
{
    assert(events.take(i + 1).drop_last() =~= events.take(i));
}

/// A step never leads back: the rank of the state does not fall, and it
/// rises with every action but `Ignore`.
pub proof fn law_step_advances(state: StateModel, event: EventModel)
    ensures
        rank(state) <= rank(next(state, event).0),
        next(state, event).1 is Ignore ==> next(state, event).0 == state,
        !(next(state, event).1 is Ignore) ==> rank(state) < rank(next(state, event).0),
{
}

/// Along a run the rank of the state never falls.
pub proof fn law_rank_never_falls(start: StateModel, events: Seq<EventModel>, i: int, j: int)
    requires
        0 <= i <= j <= events.len(),
    ensures
        rank(state_after(start, events.take(i))) <= rank(state_after(start, events.take(j))),
    decreases j - i,
{
    if i < j {
        law_rank_never_falls(start, events, i, j - 1);
        lemma_unfold(start, events, j - 1);
    }
}

/// Every write-back that the machine asks for, from whatever state and on
/// whatever event, has the fixed status.
pub proof fn law_status_is_fixed(state: StateModel, event: EventModel)
    ensures
        next(state, event).1 matches ActionModel::Submit(submission) ==> submission.status_code
            == STATUS_OK,
{
}

/// The machine asks for a fetch only on leaving `Parsing`, and for a
/// write-back only on leaving `Transforming`.
pub proof fn law_actions_have_their_phase(state: StateModel, event: EventModel)
    ensures
        next(state, event).1 is Fetch ==> state is Parsing && next(state, event).0 is Fetching,
        next(state, event).1 is Submit ==> state is Transforming && next(state, event).0
            is Submitting,
        next(state, event).1 is Fail <==> next(state, event).0 is Aborted && !(state is Aborted),
{
}

/// In a run there is at most one write-back, and at most one fetch.
pub proof fn law_sends_once(start: StateModel, events: Seq<EventModel>, i: int, j: int)
    requires
        0 <= i < j < events.len(),
    ensures
        !(action_at(start, events, i) is Submit && action_at(start, events, j) is Submit),
        !(action_at(start, events, i) is Fetch && action_at(start, events, j) is Fetch),
{
    lemma_unfold(start, events, i);
    law_rank_never_falls(start, events, i + 1, j);
}

/// After a failure nothing is sent: every later event is ignored.
pub proof fn law_failure_is_final(start: StateModel, events: Seq<EventModel>, i: int, j: int)
    requires
        0 <= i < j < events.len(),
        action_at(start, events, i) is Fail,
    ensures
        action_at(start, events, j) is Ignore,
{
    lemma_unfold(start, events, i);
    law_rank_never_falls(start, events, i + 1, j);
}

/// An invocation without a `Range` header, or without addressing metadata,
/// aborts at its first step, and no fetch and no write-back is asked for
/// anywhere in the run.
pub proof fn law_unreadable_event_sends_nothing(events: Seq<EventModel>, i: int)
    requires
        0 <= i < events.len(),
        events[0] matches EventModel::Invoked(invocation) && (invocation.requested_range is None
            || invocation.context is None),
    ensures
        action_at(StateModel::Parsing, events, 0) is Fail,
        !(action_at(StateModel::Parsing, events, i) is Fetch),
        !(action_at(StateModel::Parsing, events, i) is Submit),
{
    assert(events.take(0) =~= Seq::<EventModel>::empty());
    if 0 < i {
        law_failure_is_final(StateModel::Parsing, events, 0, i);
    }
}

/// A fetch that ends without a usable answer (a transport failure, a status
/// that is no success, or no `Content-Range` header) aborts the invocation,
/// and no write-back is asked for anywhere in the run.
pub proof fn law_failed_fetch_submits_nothing(
    start: StateModel,
    events: Seq<EventModel>,
    j: int,
    i: int,
)
    requires
        0 <= j < events.len(),
        0 <= i < events.len(),
        state_after(start, events.take(j)) is Fetching,
        events[j] is FetchFailed || (events[j] matches EventModel::FetchReturned(response) && (
            response.content_range is None || !is_success(response.status))),
    ensures
        action_at(start, events, j) is Fail,
        !(action_at(start, events, i) is Submit),
{
    if i < j {
        law_rank_never_falls(start, events, i, j);
    } else if j < i {
        law_failure_is_final(start, events, j, i);
    }
}

/// A body that is not UTF-8 aborts the invocation when its turn to be
/// transformed comes, and no write-back is asked for anywhere in the run.
pub proof fn law_undecodable_body_submits_nothing(
    start: StateModel,
    events: Seq<EventModel>,
    j: int,
    i: int,
)
    requires
        0 <= j < events.len(),
        0 <= i < events.len(),
        state_after(start, events.take(j)) matches StateModel::Transforming { fetched, .. }
            && transformed_bytes(fetched.body) is None,
        events[j] is Resumed,
    ensures
        action_at(start, events, j) == ActionModel::Fail(ErrorModel::Encoding),
        !(action_at(start, events, i) is Submit),
{
    if i < j {
        lemma_unfold(start, events, i);
        law_rank_never_falls(start, events, i + 1, j);
    } else if j < i {
        law_failure_is_final(start, events, j, i);
    }
}

proof fn lemma_fetching_origin(events: Seq<EventModel>, n: int) -> (k: int)
    requires
        0 <= n <= events.len(),
        state_after(StateModel::Parsing, events.take(n)) is Fetching,
    ensures
        0 <= k < n,
        state_after(StateModel::Parsing, events.take(n)) matches StateModel::Fetching {
            output_route,
            output_token,
        } && invokes(events[k], output_route, output_token),
    decreases n,
{
    if n == 0 {
        assert(events.take(0) =~= Seq::<EventModel>::empty());
        0
    } else {
        lemma_unfold(StateModel::Parsing, events, n - 1);
        if state_after(StateModel::Parsing, events.take(n - 1)) is Fetching {
            lemma_fetching_origin(events, n - 1)
        } else {
            n - 1
        }
    }
}

proof fn lemma_transforming_origin(events: Seq<EventModel>, n: int) -> (kj: (int, int))
    requires
        0 <= n <= events.len(),
        state_after(StateModel::Parsing, events.take(n)) is Transforming,
    ensures
        0 <= kj.0 < kj.1 < n,
        state_after(StateModel::Parsing, events.take(n)) matches StateModel::Transforming {
            output_route,
            output_token,
            fetched,
        } && invokes(events[kj.0], output_route, output_token) && answers(events[kj.1], fetched),
    decreases n,
{
    if n == 0 {
        assert(events.take(0) =~= Seq::<EventModel>::empty());
        (0, 0)
    } else {
        lemma_unfold(StateModel::Parsing, events, n - 1);
        if state_after(StateModel::Parsing, events.take(n - 1)) is Transforming {
            lemma_transforming_origin(events, n - 1)
        } else {
            let k = lemma_fetching_origin(events, n - 1);
            (k, n - 1)
        }
    }
}

/// Whatever a run from `Parsing` writes back belongs to an invocation and a
/// fetch answer that came earlier in that run, in this order: it carries the
/// invocation's route and token, the answer's descriptor byte for byte, the
/// answer's body in upper case, and the fixed status.
pub proof fn law_submission_is_faithful(events: Seq<EventModel>, i: int) -> (origin: (int, int))
    requires
        0 <= i < events.len(),
        action_at(StateModel::Parsing, events, i) is Submit,
    ensures
        0 <= origin.0 < origin.1 < i,
        action_at(StateModel::Parsing, events, i) matches ActionModel::Submit(submission)
            && writes_back(submission, events[origin.0], events[origin.1]),
{
    lemma_transforming_origin(events, i)
}

/// The events of an invocation in which everything goes well: the
/// invocation, the fetch's answer, the hand-back before the transformation,
/// and the accepted write-back.
pub open spec fn served_run(
    invocation: InvocationModel,
    response: FetchResponseModel,
) -> Seq<EventModel> {
    seq![
        EventModel::Invoked(invocation),
        EventModel::FetchReturned(response),
        EventModel::Resumed,
        EventModel::SubmissionAccepted,
    ]
}

/// An event with addressing metadata and a range, answered by a successful
/// fetch with a descriptor and a UTF-8 body, is served: the machine asks for
/// the fetch of that range at the event's locator, then for one write-back
/// with the fixed status, the event's route and token, the body in upper
/// case and the answer's descriptor, and it ends in `Completed`.
pub proof fn law_sound_invocation_is_served(
    invocation: InvocationModel,
    response: FetchResponseModel,
)
    requires
        invocation.context is Some,
        invocation.requested_range is Some,
        is_success(response.status),
        response.content_range is Some,
        valid_utf8(response.body),
    ensures
        ({
            let events = served_run(invocation, response);
            let context = invocation.context->0;
            &&& action_at(StateModel::Parsing, events, 0) == ActionModel::Fetch(
                FetchRequestModel {
                    url: context.source_url,
                    range: invocation.requested_range->0,
                },
            )
            &&& action_at(StateModel::Parsing, events, 1) == ActionModel::Resume
            &&& action_at(StateModel::Parsing, events, 2) == ActionModel::Submit(
                SubmissionModel {
                    output_route: context.output_route,
                    output_token: context.output_token,
                    status_code: 200,
                    body: encode_utf8(uppercase_of(decode_utf8(response.body))),
                    content_range: response.content_range->0,
                },
            )
            &&& action_at(StateModel::Parsing, events, 3) == ActionModel::Succeed
            &&& state_after(StateModel::Parsing, events) == StateModel::Completed
        }),
{
    let events = served_run(invocation, response);
    assert(events.take(0) =~= Seq::<EventModel>::empty());
    lemma_unfold(StateModel::Parsing, events, 0);
    lemma_unfold(StateModel::Parsing, events, 1);
    lemma_unfold(StateModel::Parsing, events, 2);
    lemma_unfold(StateModel::Parsing, events, 3);
    assert(events.take(4) =~= events);
}

} // verus!
