//! What holds of the fetch subsystem over any sequence of operations.

use crate::config::{ClientConfigView, FetchResponseView};
use crate::error::ErrorView;
use crate::fetch::{data_submission, submission};
use crate::ids::RequestId;
use crate::model::{
    reason_text, Command, DeferredView, FetchStateView, ResponseBodyView, SendStepView,
    TransportOutcomeView, SYNTHETIC_STATUS,
};
use crate::registry::PendingOperation;
use crate::request::{
    is_post_or_put, law_empty_body_states_length, law_range_forces_identity, names,
};
use crate::wire::{decoded_data_url, parsed_url};
use vstd::prelude::*;

verus! {

/// Every operation keeps the invariant: an identity is registered in at
/// most one of the two registries and the set of requests in flight, and
/// only once it has been handed out.
pub proof fn law_step_keeps_invariant<B>(state: FetchStateView<B>, command: Command<B>)
    requires
        state.wf(),
    ensures
        state.step(command).wf(),
{
}

/// Every sequence of operations keeps the invariant and never takes back
/// an identity that was handed out.
pub proof fn law_run_keeps_invariant<B>(state: FetchStateView<B>, commands: Seq<Command<B>>)
    requires
        state.wf(),
    ensures
        state.run(commands).wf(),
        state.run(commands).next_id >= state.next_id,
    decreases commands.len(),
{
    if commands.len() > 0 {
        law_run_keeps_invariant(state, commands.drop_last());
        law_step_keeps_invariant(state.run(commands.drop_last()), commands.last());
    }
}

/// A submission returns an identity under which nothing was registered
/// before and which is larger than every identity handed out before.
pub proof fn law_submitted_id_is_fresh<B>(state: FetchStateView<B>, operation: DeferredView)
    requires
        state.wf(),
        state.has_capacity(),
    ensures
        !state.known(state.submit(operation).1),
        !state.issued(state.submit(operation).1),
        state.submit(operation).0.issued(state.submit(operation).1),
        forall|earlier: RequestId| state.issued(earlier) ==> earlier < state.submit(operation).1,
{
}

/// Of two submissions the later one returns the larger identity, whatever
/// happens between them.
pub proof fn law_later_submission_gets_larger_id<B>(
    state: FetchStateView<B>,
    first: DeferredView,
    between: Seq<Command<B>>,
    second: DeferredView,
)
    requires
        state.wf(),
        state.has_capacity(),
        state.submit(first).0.run(between).has_capacity(),
    ensures
        state.submit(first).1 < state.submit(first).0.run(between).submit(second).1,
{
    law_step_keeps_invariant(state, Command::Submit(first));
    law_run_keeps_invariant(state.submit(first).0, between);
}

/// Once an identity is handed out and nothing waits under it to be
/// driven, nothing ever will.
proof fn lemma_not_pending_stays<B>(
    state: FetchStateView<B>,
    id: RequestId,
    commands: Seq<Command<B>>,
)
    requires
        state.issued(id),
        !state.pending.contains_key(id),
    ensures
        state.run(commands).issued(id),
        !state.run(commands).pending.contains_key(id),
    decreases commands.len(),
{
    if commands.len() > 0 {
        lemma_not_pending_stays(state, id, commands.drop_last());
    }
}

/// Resolving an identity under which nothing waits fails with
/// `InvalidRequestId` and changes nothing.
pub proof fn law_unknown_id_cannot_be_resolved<B>(state: FetchStateView<B>, id: RequestId)
    requires
        !state.pending.contains_key(id),
    ensures
        state.send(id) == (state, Err::<SendStepView, ErrorView>(ErrorView::InvalidRequestId(id))),
{
}

/// An identity is resolved at most once: after a first attempt, whatever
/// came of it, every later attempt fails with `InvalidRequestId`.
pub proof fn law_resolving_again_fails<B>(
    state: FetchStateView<B>,
    id: RequestId,
    between: Seq<Command<B>>,
)
    requires
        state.wf(),
        state.pending.contains_key(id),
    ensures
        state.send(id).0.run(between).send(id).1 == Err::<SendStepView, ErrorView>(
            ErrorView::InvalidRequestId(id),
        ),
{
    lemma_not_pending_stays(state.send(id).0, id, between);
}

/// An identity that is used up stays used up, whatever happens.
pub proof fn law_consumed_id_stays_consumed<B>(
    state: FetchStateView<B>,
    id: RequestId,
    commands: Seq<Command<B>>,
)
    requires
        state.consumed(id),
    ensures
        state.run(commands).consumed(id),
    decreases commands.len(),
{
    if commands.len() > 0 {
        law_consumed_id_stays_consumed(state, id, commands.drop_last());
    }
}

/// An identity under which nothing is registered, be it because it was
/// never handed out or because it is used up, is rejected by every
/// operation with `InvalidRequestId`, and the operation changes nothing.
pub proof fn law_unregistered_id_is_rejected<B>(
    state: FetchStateView<B>,
    id: RequestId,
    outcome: TransportOutcomeView<B>,
)
    requires
        !state.known(id),
    ensures
        state.cancel(id) == (state, Err::<(), ErrorView>(ErrorView::InvalidRequestId(id))),
        state.send(id) == (state, Err::<SendStepView, ErrorView>(ErrorView::InvalidRequestId(id))),
        state.complete(id, outcome) == (
            state,
            Err::<FetchResponseView, ErrorView>(ErrorView::InvalidRequestId(id)),
        ),
        state.read_body(id) == (
            state,
            Err::<ResponseBodyView<B>, ErrorView>(ErrorView::InvalidRequestId(id)),
        ),
{
}

/// Reading the body of an identity that has no resolved response fails
/// with `InvalidRequestId` and changes nothing.
pub proof fn law_unresolved_body_cannot_be_read<B>(state: FetchStateView<B>, id: RequestId)
    requires
        !state.resolved.contains_key(id),
    ensures
        state.read_body(id) == (
            state,
            Err::<ResponseBodyView<B>, ErrorView>(ErrorView::InvalidRequestId(id)),
        ),
{
}

/// A body is read at most once: after it was read, every operation on its
/// identity fails with `InvalidRequestId`, whatever happens in between.
pub proof fn law_body_is_read_once<B>(
    state: FetchStateView<B>,
    id: RequestId,
    between: Seq<Command<B>>,
)
    requires
        state.wf(),
        state.resolved.contains_key(id),
    ensures
        state.read_body(id).1 == Ok::<ResponseBodyView<B>, ErrorView>(state.resolved[id]),
        state.read_body(id).0.run(between).read_body(id).1 == Err::<
            ResponseBodyView<B>,
            ErrorView,
        >(ErrorView::InvalidRequestId(id)),
        state.read_body(id).0.run(between).send(id).1 == Err::<SendStepView, ErrorView>(
            ErrorView::InvalidRequestId(id),
        ),
        state.read_body(id).0.run(between).cancel(id).1 == Err::<(), ErrorView>(
            ErrorView::InvalidRequestId(id),
        ),
{
    law_consumed_id_stays_consumed(state.read_body(id).0, id, between);
}

/// Whether none of the commands resolves `id`.
pub open spec fn none_resolves<B>(commands: Seq<Command<B>>, id: RequestId) -> bool {
    forall|i: int| 0 <= i < commands.len() ==> #[trigger] commands[i] != Command::<B>::Send(id)
}

/// A cancelled operation stays cancelled until it is resolved.
proof fn lemma_cancelled_stays<B>(
    state: FetchStateView<B>,
    id: RequestId,
    commands: Seq<Command<B>>,
)
    requires
        state.issued(id),
        state.pending.contains_key(id),
        state.pending[id] == PendingOperation::<DeferredView>::Cancelled,
        none_resolves(commands, id),
    ensures
        state.run(commands).issued(id),
        state.run(commands).pending.contains_key(id),
        state.run(commands).pending[id] == PendingOperation::<DeferredView>::Cancelled,
    decreases commands.len(),
{
    if commands.len() > 0 {
        let before = commands.drop_last();
        lemma_cancelled_stays(state, id, before);
    }
}

/// Cancelling an identity under which nothing waits fails with
/// `InvalidRequestId` and changes nothing.
pub proof fn law_unknown_id_cannot_be_cancelled<B>(state: FetchStateView<B>, id: RequestId)
    requires
        !state.pending.contains_key(id),
    ensures
        state.cancel(id) == (state, Err::<(), ErrorView>(ErrorView::InvalidRequestId(id))),
{
}

/// An operation that is cancelled before it is resolved fails with
/// `RequestCanceled` when it is resolved, whatever else happens in between,
/// and with `InvalidRequestId` from then on.
pub proof fn law_cancelled_operation_reports_cancellation<B>(
    state: FetchStateView<B>,
    id: RequestId,
    between: Seq<Command<B>>,
    after: Seq<Command<B>>,
)
    requires
        state.wf(),
        state.pending.contains_key(id),
        none_resolves(between, id),
    ensures
        state.cancel(id).1 == Ok::<(), ErrorView>(()),
        state.cancel(id).0.run(between).send(id).1 == Err::<SendStepView, ErrorView>(
            ErrorView::RequestCanceled,
        ),
        state.cancel(id).0.run(between).send(id).0.run(after).send(id).1 == Err::<
            SendStepView,
            ErrorView,
        >(ErrorView::InvalidRequestId(id)),
{
    let cancelled = state.cancel(id).0;
    lemma_cancelled_stays(cancelled, id, between);
    let resolved = cancelled.run(between).send(id).0;
    lemma_not_pending_stays(resolved, id, after);
}

/// A `POST` or `PUT` that is submitted without a body is registered as a
/// request that carries `Content-Length: 0`.
pub proof fn law_post_without_body_states_length(config: ClientConfigView, scope_allows: bool)
    requires
        is_post_or_put(config.method),
        config.data is None,
        submission(config, scope_allows) matches Ok(DeferredView::Send(_)),
    ensures
        submission(config, scope_allows)->Ok_0->Send_0.headers.contains(
            ("content-length"@, "0"@),
        ),
{
    law_empty_body_states_length(config.method, config.headers);
}

/// A submission whose header lines ask for a range is registered as a
/// request that carries `Accept-Encoding: identity`.
pub proof fn law_range_request_forces_identity(config: ClientConfigView, scope_allows: bool)
    requires
        names(config.headers, "range"@),
        submission(config, scope_allows) matches Ok(DeferredView::Send(_)),
    ensures
        submission(config, scope_allows)->Ok_0->Send_0.headers.contains(
            ("accept-encoding"@, "identity"@),
        ),
{
    law_range_forces_identity(config.method, config.data is Some, config.headers);
}

/// What becomes of a submission with a `data:` target does not depend on
/// the scope.
pub proof fn law_data_submission_ignores_scope(config: ClientConfigView)
    requires
        parsed_url(config.url) is Some,
        parsed_url(config.url)->Some_0.0 == "data"@,
    ensures
        submission(config, true) == submission(config, false),
        submission(config, true) is Ok ==> submission(config, true) == data_submission(
            parsed_url(config.url)->Some_0.1,
        ),
{
    reveal_strlit("data");
    reveal_strlit("http");
    reveal_strlit("https");
    assert("data"@[0] == 'd');
}

/// An accepted submission with a `data:` target resolves without the
/// transport: to status 200 with the decoded MIME type as its content
/// type, and to the decoded bytes as its body.
pub proof fn law_data_response_resolves_at_once<B>(
    state: FetchStateView<B>,
    config: ClientConfigView,
    scope_allows: bool,
)
    requires
        state.wf(),
        state.has_capacity(),
        parsed_url(config.url) is Some,
        parsed_url(config.url)->Some_0.0 == "data"@,
        submission(config, scope_allows) is Ok,
    ensures
        ({
            let decoded = decoded_data_url(parsed_url(config.url)->Some_0.1)->Some_0;
            let (submitted, id) = state.submit(submission(config, scope_allows)->Ok_0);
            let (resolved, step) = submitted.send(id);
            &&& step matches Ok(SendStepView::Resolved(found))
            &&& found.status == SYNTHETIC_STATUS
            &&& found.status_text == reason_text(SYNTHETIC_STATUS)
            &&& found.headers == seq![("content-type"@, decoded.0)]
            &&& resolved.read_body(id).1 == Ok::<ResponseBodyView<B>, ErrorView>(
                ResponseBodyView::Buffered(decoded.1->Some_0),
            )
        }),
{
    law_data_submission_ignores_scope(config);
}

} // verus!
