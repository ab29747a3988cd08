//! What holds of the client over whole sequences of events.
//!
//! Everything here is stated over [`ModelView::next`] and
//! [`ModelView::outcome`], the two functions in which the contract of
//! [`crate::Model::update`] is written: what holds of them holds of every
//! run of the executable client.

use vstd::prelude::*;
use crate::message::{DecodeErrorView, MsgView, WsAction, WsRequestView, WsResponseView, WsStatus};
use crate::session::{EffectView, ModelView, OutcomeView};

verus! {

/// The client after a sequence of events, the first of them first.
pub open spec fn run(model: ModelView, msgs: Seq<MsgView>) -> ModelView
    decreases msgs.len(),
{
    if msgs.len() == 0 {
        model
    } else {
        run(model, msgs.drop_last()).next(msgs.last())
    }
}

/// What the event at position `at` of a sequence gives, the events before it
/// having been handled.
pub open spec fn outcome_at(model: ModelView, msgs: Seq<MsgView>, at: int) -> OutcomeView
    recommends
        0 <= at < msgs.len(),
{
    run(model, msgs.take(at)).outcome(msgs[at])
}

/// A session that holds no connection holds none after any further events.
pub proof fn law_ended_session_stays_ended(model: ModelView, msgs: Seq<MsgView>)
    requires
        !model.state.live(),
    ensures
        !run(model, msgs).state.live(),
        run(model, msgs).state == model.state,
    decreases msgs.len(),
{
    if msgs.len() > 0 {
        law_ended_session_stays_ended(model, msgs.drop_last());
    }
}

/// Running a sequence up to `upto` and then the event at `upto` is running it
/// up to `upto + 1`.
proof fn lemma_run_take_step(model: ModelView, msgs: Seq<MsgView>, upto: int)
    requires
        0 <= upto < msgs.len(),
    ensures
        run(model, msgs.take(upto + 1)) == run(model, msgs.take(upto)).next(msgs[upto]),
{
    assert(msgs.take(upto + 1).drop_last() =~= msgs.take(upto));
}

/// No connection after an end: in any sequence of events, from any client,
/// once a disconnect or a loss was handled the connection is absent, and it is
/// absent after every later event.
pub proof fn law_no_connection_after_end(
    model: ModelView,
    msgs: Seq<MsgView>,
    end: int,
    later: int,
)
    requires
        0 <= end < later <= msgs.len(),
        msgs[end] is WsAction,
    ensures
        !run(model, msgs.take(later)).display().connection_present,
    decreases later,
{
    lemma_run_take_step(model, msgs, later - 1);
    if end < later - 1 {
        law_no_connection_after_end(model, msgs, end, later - 1);
    }
}

/// No event asks for a new connection: only the creation of a client does.
pub proof fn law_update_never_connects(model: ModelView, msg: MsgView)
    ensures
        !(model.outcome(msg).effect is Connect),
{
}

/// A subscription is sent exactly for an opening that reaches a session which
/// is still connecting. It is then the subscription to the ticker channel of
/// BTC-USD, the session is open after it, and the display is not drawn again
/// for it.
pub proof fn law_subscription_answers_opening(model: ModelView, msg: MsgView)
    ensures
        model.outcome(msg).effect is Subscribe <==> msg is WsOpened && model.state is Connecting,
        model.outcome(msg).effect is Subscribe ==> model.outcome(msg) == (OutcomeView {
            redraw: false,
            effect: EffectView::Subscribe(WsRequestView::ticker_subscription()),
        }) && model.next(msg).state is Opened,
{
}

/// A session that has left `Connecting` never is `Connecting` again.
proof fn lemma_connecting_never_returns(
    model: ModelView,
    msgs: Seq<MsgView>,
    from: int,
    to: int,
)
    requires
        0 <= from <= to <= msgs.len(),
        !(run(model, msgs.take(from)).state is Connecting),
    ensures
        !(run(model, msgs.take(to)).state is Connecting),
    decreases to,
{
    if from < to {
        lemma_connecting_never_returns(model, msgs, from, to - 1);
        lemma_run_take_step(model, msgs, to - 1);
    }
}

/// A session that is connecting stays so until an opening, a disconnect or a
/// loss is handled.
proof fn lemma_connecting_until_opening_or_end(model: ModelView, msgs: Seq<MsgView>, upto: int)
    requires
        model.state is Connecting,
        0 <= upto <= msgs.len(),
        forall|at: int|
            0 <= at < upto ==> !(#[trigger] msgs[at] is WsOpened) && !(msgs[at] is WsAction),
    ensures
        run(model, msgs.take(upto)).state is Connecting,
    decreases upto,
{
    if upto > 0 {
        lemma_connecting_until_opening_or_end(model, msgs, upto - 1);
        lemma_run_take_step(model, msgs, upto - 1);
    }
}

/// At most one subscription per session: in any sequence of events, from any
/// client, an event after one that gave a subscription gives none.
pub proof fn law_at_most_one_subscription(
    model: ModelView,
    msgs: Seq<MsgView>,
    first: int,
    second: int,
)
    requires
        0 <= first < second < msgs.len(),
        outcome_at(model, msgs, first).effect is Subscribe,
    ensures
        !(outcome_at(model, msgs, second).effect is Subscribe),
{
    lemma_run_take_step(model, msgs, first);
    lemma_connecting_never_returns(model, msgs, first + 1, second);
}

/// One opening, one subscription: where the first opening reaches a new
/// client before any disconnect or loss, it gives the subscription to the
/// ticker channel of BTC-USD, without a redraw, and no other event of the
/// sequence gives a subscription.
pub proof fn law_first_opening_gives_the_one_subscription(msgs: Seq<MsgView>, opening: int)
    requires
        0 <= opening < msgs.len(),
        msgs[opening] is WsOpened,
        forall|at: int|
            0 <= at < opening ==> !(#[trigger] msgs[at] is WsOpened) && !(msgs[at] is WsAction),
    ensures
        outcome_at(ModelView::initial(), msgs, opening) == (OutcomeView {
            redraw: false,
            effect: EffectView::Subscribe(WsRequestView::ticker_subscription()),
        }),
        forall|at: int|
            0 <= at < msgs.len() && at != opening ==> !(#[trigger] outcome_at(
                ModelView::initial(),
                msgs,
                at,
            ).effect is Subscribe),
{
    let start = ModelView::initial();
    lemma_connecting_until_opening_or_end(start, msgs, opening);
    assert forall|at: int| 0 <= at < msgs.len() && at != opening implies !(#[trigger] outcome_at(
        start,
        msgs,
        at,
    ).effect is Subscribe) by {
        if opening < at {
            law_at_most_one_subscription(start, msgs, opening, at);
        }
    }
}

/// A decoded ticker becomes the displayed best bid, in every state, and the
/// display is drawn again.
pub proof fn law_ticker_sets_best_bid(model: ModelView, ticker: WsResponseView)
    ensures
        model.next(MsgView::WsReady(Ok(ticker))).display().best_bid == Some(ticker.best_bid),
        model.next(MsgView::WsReady(Ok(ticker))).state == model.state,
        model.outcome(MsgView::WsReady(Ok(ticker))) == (OutcomeView {
            redraw: true,
            effect: EffectView::Nothing,
        }),
{
}

/// A frame that failed to decode leaves the client as it was; the failure is
/// handed back to be reported.
pub proof fn law_decode_failure_changes_nothing(model: ModelView, error: DecodeErrorView)
    ensures
        model.next(MsgView::WsReady(Err(error))) == model,
        model.outcome(MsgView::WsReady(Err(error))) == (OutcomeView {
            redraw: true,
            effect: EffectView::Report(error),
        }),
{
}

/// A disconnect without a connection does nothing: the client stays as it
/// was, nothing is to be done, and the display is not drawn again.
pub proof fn law_disconnect_without_connection(model: ModelView)
    requires
        !model.state.live(),
    ensures
        model.next(MsgView::WsAction(WsAction::Disconnect)) == model,
        model.outcome(MsgView::WsAction(WsAction::Disconnect)) == (OutcomeView {
            redraw: false,
            effect: EffectView::Nothing,
        }),
{
}

/// A close and an error of the transport are one and the same event, the
/// loss of the connection.
pub proof fn law_close_and_error_are_a_loss()
    ensures
        MsgView::of_status(WsStatus::Closed) == MsgView::WsAction(WsAction::Lost),
        MsgView::of_status(WsStatus::Error) == MsgView::WsAction(WsAction::Lost),
{
}

/// A loss handled twice in a row leaves the client where one loss leaves it,
/// and only the first lets go of a connection.
pub proof fn law_loss_is_idempotent(model: ModelView)
    ensures
        model.next(MsgView::WsAction(WsAction::Lost)).next(MsgView::WsAction(WsAction::Lost))
            == model.next(MsgView::WsAction(WsAction::Lost)),
        model.next(MsgView::WsAction(WsAction::Lost)).next(
            MsgView::WsAction(WsAction::Lost),
        ).display() == model.next(MsgView::WsAction(WsAction::Lost)).display(),
        model.next(MsgView::WsAction(WsAction::Lost)).outcome(MsgView::WsAction(WsAction::Lost))
            == (OutcomeView { redraw: true, effect: EffectView::Nothing }),
{
}

/// A disconnect on a session with a connection ends it: the connection is to
/// be closed, and the display is drawn again.
pub proof fn law_disconnect_ends_session(model: ModelView)
    requires
        model.state.live(),
    ensures
        !model.next(MsgView::WsAction(WsAction::Disconnect)).display().connection_present,
        model.next(MsgView::WsAction(WsAction::Disconnect)).best_bid == model.best_bid,
        model.outcome(MsgView::WsAction(WsAction::Disconnect)) == (OutcomeView {
            redraw: true,
            effect: EffectView::Cancel,
        }),
{
}

} // verus!
