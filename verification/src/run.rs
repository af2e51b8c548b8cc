//! Whole runs: what holds of every sequence of moves from the start.

use vstd::prelude::*;
use crate::flow::{transition, ActionView, EventView, OptsView, State, TransitionView};
use crate::locator::located;
use crate::updater::update_for;

verus! {

/// The state in which the `k`-th event of a run arrives: the start for the
/// first, and after that the state that the move before led to.
pub open spec fn state_before(moves: Seq<TransitionView>, k: int) -> State {
    if k <= 0 {
        State::Start
    } else {
        moves[k - 1].next
    }
}

/// `moves` are the moves of a run in which `events` arrive in this order:
/// every event is awaited where it arrives, and causes the move of the
/// same position.
pub open spec fn is_run(opts: OptsView, events: Seq<EventView>, moves: Seq<TransitionView>) -> bool {
    &&& moves.len() == events.len()
    &&& forall|k: int|
        0 <= k < events.len() ==> transition(opts, state_before(moves, k), #[trigger] events[k])
            == Some(moves[k])
}

/// The `k`-th move of a run is the one that its `k`-th event causes.
proof fn lemma_move_at(
    opts: OptsView,
    events: Seq<EventView>,
    moves: Seq<TransitionView>,
    k: int,
)
    requires
        is_run(opts, events, moves),
        0 <= k < events.len(),
    ensures
        transition(opts, state_before(moves, k), events[k]) == Some(moves[k]),
{
}

/// A run has no loops: it takes at most three moves, one for each call,
/// and a move that ends it is its last.
pub proof fn lemma_run_is_short(
    opts: OptsView,
    events: Seq<EventView>,
    moves: Seq<TransitionView>,
)
    requires
        is_run(opts, events, moves),
    ensures
        events.len() <= 3,
        forall|k: int|
            0 <= k < moves.len() && (#[trigger] moves[k]).next.is_terminal() ==> k == moves.len()
                - 1,
{
    if events.len() > 3 {
        lemma_move_at(opts, events, moves, 0);
        lemma_move_at(opts, events, moves, 1);
        lemma_move_at(opts, events, moves, 2);
        lemma_move_at(opts, events, moves, 3);
    }
    assert forall|k: int| 0 <= k < moves.len() && (#[trigger] moves[k]).next.is_terminal() implies k
        == moves.len() - 1 by {
        if k < moves.len() - 1 {
            lemma_move_at(opts, events, moves, k + 1);
        }
    }
}

/// The calls of a run come in one order: the listing first and the update
/// second, each at most once, and the third move makes no call.
pub proof fn lemma_calls_come_in_order(
    opts: OptsView,
    events: Seq<EventView>,
    moves: Seq<TransitionView>,
    k: int,
)
    requires
        is_run(opts, events, moves),
        0 <= k < moves.len(),
    ensures
        !(moves[k].action is BuildClient),
        moves[k].action is ListRecords <==> k == 0 && events[0] is ClientBuilt,
        moves[k].action is UpdateRecord ==> k == 1,
        moves[k].action.is_call() ==> k < 2,
{
    lemma_run_is_short(opts, events, moves);
    lemma_move_at(opts, events, moves, 0);
    if k >= 1 {
        lemma_move_at(opts, events, moves, 1);
    }
    if k >= 2 {
        lemma_move_at(opts, events, moves, 2);
    }
}

/// A failure aborts the run before any further call: the event that
/// reports it is the last of the run, and the move it causes makes no call.
/// So a list request that fails is never followed by an update.
pub proof fn lemma_failure_is_last(
    opts: OptsView,
    events: Seq<EventView>,
    moves: Seq<TransitionView>,
    k: int,
)
    requires
        is_run(opts, events, moves),
        0 <= k < events.len(),
        events[k].is_failure(),
    ensures
        k == events.len() - 1,
        moves[k].action is Abort,
        forall|j: int| k <= j < moves.len() ==> !(#[trigger] moves[j]).action.is_call(),
{
    lemma_move_at(opts, events, moves, k);
    assert(moves[k].next.is_terminal());
    lemma_run_is_short(opts, events, moves);
}

/// A run asks for an update only after a listing in which a record was
/// located: the update is that record's, with its name, TTL and proxy
/// setting, and every event before it was a success.
pub proof fn lemma_update_only_after_listing(
    opts: OptsView,
    events: Seq<EventView>,
    moves: Seq<TransitionView>,
    k: int,
)
    requires
        is_run(opts, events, moves),
        0 <= k < moves.len(),
        moves[k].action is UpdateRecord,
    ensures
        k == 1,
        events[0] is ClientBuilt,
        events[1] matches EventView::RecordsListed { result, errors } && {
            &&& located(result, opts.zone, opts.name) matches Some(record)
            &&& moves[1].action == ActionView::UpdateRecord(update_for(record, opts.ip))
        },
{
    lemma_calls_come_in_order(opts, events, moves, k);
    lemma_move_at(opts, events, moves, 0);
    lemma_move_at(opts, events, moves, 1);
}

/// Where the listing fails, or holds no eligible record, the run is over
/// after it, and no update was asked for at any point.
pub proof fn lemma_no_update_without_located_record(
    opts: OptsView,
    events: Seq<EventView>,
    moves: Seq<TransitionView>,
)
    requires
        is_run(opts, events, moves),
        events.len() >= 2,
        events[1] matches EventView::RecordsListed { result, errors } ==> located(
            result,
            opts.zone,
            opts.name,
        ) is None,
    ensures
        events.len() == 2,
        moves[1].action is Abort,
        forall|j: int| 0 <= j < moves.len() ==> !((#[trigger] moves[j]).action is UpdateRecord),
{
    lemma_move_at(opts, events, moves, 0);
    lemma_move_at(opts, events, moves, 1);
    assert(moves[1].next.is_terminal());
    lemma_run_is_short(opts, events, moves);
    assert forall|j: int| 0 <= j < moves.len() implies !((#[trigger] moves[j]).action
        is UpdateRecord) by {
        if moves[j].action is UpdateRecord {
            lemma_update_only_after_listing(opts, events, moves, j);
        }
    }
}

/// A run reports success only as its third move, after a listing and an
/// update that both went through.
pub proof fn lemma_success_takes_three_moves(
    opts: OptsView,
    events: Seq<EventView>,
    moves: Seq<TransitionView>,
    k: int,
)
    requires
        is_run(opts, events, moves),
        0 <= k < moves.len(),
        moves[k].action is Report,
    ensures
        k == 2,
        events.len() == 3,
        events[0] is ClientBuilt,
        events[1] is RecordsListed,
        events[2] matches EventView::RecordUpdated { result, errors } && moves[2].action
            == (ActionView::Report { record: result }),
        moves[1].action is UpdateRecord,
{
    lemma_run_is_short(opts, events, moves);
    lemma_move_at(opts, events, moves, k);
    lemma_move_at(opts, events, moves, 0);
    if k >= 1 {
        lemma_move_at(opts, events, moves, 1);
    }
    if k >= 2 {
        lemma_move_at(opts, events, moves, 2);
    }
}

/// The events decide the run: the same events arriving in the same order
/// cause the same moves.
pub proof fn lemma_run_is_determined(
    opts: OptsView,
    events: Seq<EventView>,
    first: Seq<TransitionView>,
    second: Seq<TransitionView>,
)
    requires
        is_run(opts, events, first),
        is_run(opts, events, second),
    ensures
        first == second,
{
    lemma_run_is_short(opts, events, first);
    if events.len() >= 1 {
        lemma_move_at(opts, events, first, 0);
        lemma_move_at(opts, events, second, 0);
    }
    if events.len() >= 2 {
        lemma_move_at(opts, events, first, 1);
        lemma_move_at(opts, events, second, 1);
    }
    if events.len() >= 3 {
        lemma_move_at(opts, events, first, 2);
        lemma_move_at(opts, events, second, 2);
    }
    assert(first =~= second);
}

} // verus!
