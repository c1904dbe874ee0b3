//! What holds of every run, proved over the loop's model.
//!
//! Each lemma speaks of the model functions that the contracts of
//! [`crate::event::EventLoop`] are stated with. The calls that the model
//! records are the calls that were made: the contracts of `dispatch`,
//! `drain`, `advance` and `frame` tie every recorded call to a call of that
//! handler method, with those arguments and that result, on the handler as
//! the call before left it.

use crate::error::{GameError, GameResult};
use crate::input::{Keycode, Mod};
use crate::model::{
    call_of, forwarded, lemma_after_event, lemma_after_events_frame, stops, Call, LoopModel,
    LoopState,
};
use crate::raw::RawEvent;
use crate::translator::{dispatch_of, Callback, Dispatch};
use core::time::Duration;
use vstd::prelude::*;

verus! {

/// The continuation flag survives a drain exactly if it was set before and
/// no event of the drain stops the run. Once cleared it stays cleared: a
/// later event, or a later refusal of a quit request, does not set it again.
pub proof fn lemma_drain_flag(pre: LoopModel, events: Seq<RawEvent>, answers: Seq<bool>)
    requires
        answers.len() == events.len(),
    ensures
        pre.after_events(events, answers).continuing <==> pre.continuing && forall|i: int|
            0 <= i < events.len() ==> !#[trigger] stops(events[i], answers[i]),
    decreases events.len(),
{
    if events.len() > 0 {
        let front = events.drop_last();
        let front_answers = answers.drop_last();
        lemma_drain_flag(pre, front, front_answers);
        let n = events.len() - 1;
        lemma_after_event(pre.after_events(front, front_answers), events[n], answers[n]);
        assert forall|i: int| 0 <= i < n implies stops(front[i], front_answers[i]) == stops(
            events[i],
            answers[i],
        ) by {}
        if pre.after_events(events, answers).continuing {
            assert forall|i: int| 0 <= i < events.len() implies !#[trigger] stops(
                events[i],
                answers[i],
            ) by {
                if i < n {
                    assert(!stops(front[i], front_answers[i]));
                }
            }
        }
    }
}

/// A drain only adds to the record of calls, and it adds at most one call
/// for each event.
pub proof fn lemma_drain_appends(pre: LoopModel, events: Seq<RawEvent>, answers: Seq<bool>)
    requires
        answers.len() == events.len(),
    ensures
        pre.calls.len() <= pre.after_events(events, answers).calls.len() <= pre.calls.len()
            + events.len(),
        pre.after_events(events, answers).calls.take(pre.calls.len() as int) == pre.calls,
    decreases events.len(),
{
    if events.len() > 0 {
        lemma_drain_appends(pre, events.drop_last(), answers.drop_last());
        let mid = pre.after_events(events.drop_last(), answers.drop_last());
        let post = pre.after_events(events, answers);
        assert(post.calls.take(pre.calls.len() as int) =~= mid.calls.take(pre.calls.len() as int));
    } else {
        assert(pre.calls.take(pre.calls.len() as int) =~= pre.calls);
    }
}

/// Every call that a drain records is the call that one of its events
/// stands for: the handler hears of nothing that the source did not yield.
pub proof fn lemma_drain_calls_come_from_events(
    pre: LoopModel,
    events: Seq<RawEvent>,
    answers: Seq<bool>,
    j: int,
)
    requires
        answers.len() == events.len(),
        pre.calls.len() <= j < pre.after_events(events, answers).calls.len(),
    ensures
        exists|i: int|
            0 <= i < events.len() && #[trigger] call_of(events[i], answers[i]) == Some(
                pre.after_events(events, answers).calls[j],
            ),
    decreases events.len(),
{
    let front = events.drop_last();
    let front_answers = answers.drop_last();
    let mid = pre.after_events(front, front_answers);
    let post = pre.after_events(events, answers);
    let n = events.len() - 1;
    if j < mid.calls.len() {
        lemma_drain_calls_come_from_events(pre, front, front_answers, j);
        let i = choose|i: int|
            0 <= i < front.len() && #[trigger] call_of(front[i], front_answers[i]) == Some(
                mid.calls[j],
            );
        assert(call_of(events[i], answers[i]) == Some(post.calls[j]));
    } else {
        assert(call_of(events[n], answers[n]) == Some(post.calls[j]));
    }
}

/// Where every event of a drain stands for a call, the drain records
/// exactly one call for each event, in the order of the source.
pub proof fn lemma_drain_one_call_per_event(
    pre: LoopModel,
    events: Seq<RawEvent>,
    answers: Seq<bool>,
)
    requires
        answers.len() == events.len(),
        forall|i: int| 0 <= i < events.len() ==> (#[trigger] call_of(events[i], answers[i])) is Some,
    ensures
        pre.after_events(events, answers).calls.len() == pre.calls.len() + events.len(),
        forall|i: int|
            0 <= i < events.len() ==> Some(
                #[trigger] pre.after_events(events, answers).calls[pre.calls.len() + i],
            ) == call_of(events[i], answers[i]),
    decreases events.len(),
{
    if events.len() > 0 {
        let front = events.drop_last();
        let front_answers = answers.drop_last();
        let n = events.len() - 1;
        assert forall|i: int| 0 <= i < front.len() implies (#[trigger] call_of(
            front[i],
            front_answers[i],
        )) is Some by {
            assert(call_of(events[i], answers[i]) is Some);
        }
        lemma_drain_one_call_per_event(pre, front, front_answers);
        let mid = pre.after_events(front, front_answers);
        let post = pre.after_events(events, answers);
        assert(call_of(events[n], answers[n]) is Some);
        assert forall|i: int| 0 <= i < events.len() implies Some(
            #[trigger] post.calls[pre.calls.len() + i],
        ) == call_of(events[i], answers[i]) by {
            if i < n {
                assert(post.calls[pre.calls.len() + i] == mid.calls[pre.calls.len() + i]);
                assert(call_of(front[i], front_answers[i]) == call_of(events[i], answers[i]));
            }
        }
    }
}

/// A drain without a quit request and without the escape key going down
/// records the input callbacks of its events, in the order of the source and
/// whatever else it drops, and leaves the continuation flag alone.
pub proof fn lemma_drain_forwards_in_order(
    pre: LoopModel,
    events: Seq<RawEvent>,
    answers: Seq<bool>,
)
    requires
        answers.len() == events.len(),
        forall|i: int|
            0 <= i < events.len() ==> !((#[trigger] dispatch_of(events[i])) is Quit) && !(
            dispatch_of(events[i]) is Exit),
    ensures
        pre.after_events(events, answers).calls == pre.calls + forwarded(events),
        pre.after_events(events, answers).continuing == pre.continuing,
        forwarded(events).len() <= events.len(),
    decreases events.len(),
{
    if events.len() > 0 {
        let front = events.drop_last();
        let front_answers = answers.drop_last();
        let n = events.len() - 1;
        assert forall|i: int| 0 <= i < front.len() implies !((#[trigger] dispatch_of(
            front[i],
        )) is Quit) && !(dispatch_of(front[i]) is Exit) by {
            assert(front[i] == events[i]);
            assert(!(dispatch_of(events[i]) is Quit));
        }
        lemma_drain_forwards_in_order(pre, front, front_answers);
        assert(!(dispatch_of(events[n]) is Quit) && !(dispatch_of(events[n]) is Exit));
        let mid = pre.after_events(front, front_answers);
        let post = pre.after_events(events, answers);
        match dispatch_of(events[n]) {
            Dispatch::Forward(callback) => {
                assert(forwarded(events) == forwarded(front) + seq![Call::Forward(callback)]);
                assert(post.calls =~= pre.calls + forwarded(events));
            },
            _ => {
                assert(forwarded(events) == forwarded(front));
            },
        }
    } else {
        assert(pre.calls =~= pre.calls + forwarded(events));
    }
}

/// An iteration whose drain holds no quit request and no escape key going
/// down makes the input callbacks of its events in the order of the source,
/// then one call of `update` with the elapsed time and, `update`
/// succeeding, one call of `draw`; only then is the continuation flag looked
/// at, which the drain has left alone. Where no event is dropped either,
/// that is one callback for each event.
pub proof fn lemma_frame_forwards_in_order(
    pre: LoopModel,
    events: Seq<RawEvent>,
    answers: Seq<bool>,
    dt: Duration,
    draw: GameResult<()>,
)
    requires
        answers.len() == events.len(),
        forall|i: int|
            0 <= i < events.len() ==> !((#[trigger] dispatch_of(events[i])) is Quit) && !(
            dispatch_of(events[i]) is Exit),
    ensures
        ({
            let post = pre.after_frame(events, answers, dt, Ok(()), draw);
            &&& post.calls == pre.calls + forwarded(events) + seq![
                Call::Update { dt, result: Ok(()) },
                Call::Draw { result: draw },
            ]
            &&& forwarded(events).len() <= events.len()
            &&& post.continuing == pre.continuing
            &&& draw is Ok ==> (post.state is Running <==> pre.continuing)
        }),
        (forall|i: int| 0 <= i < events.len() ==> (#[trigger] dispatch_of(events[i])) is Forward)
            ==> forwarded(events).len() == events.len() && forall|i: int|
            0 <= i < events.len() ==> #[trigger] forwarded(events)[i] == Call::Forward(
                dispatch_of(events[i])->0,
            ),
{
    let drained = pre.after_events(events, answers);
    let post = pre.after_frame(events, answers, dt, Ok(()), draw);
    lemma_drain_forwards_in_order(pre, events, answers);
    assert(post.calls =~= pre.calls + forwarded(events) + seq![
        Call::Update { dt, result: Ok(()) },
        Call::Draw { result: draw },
    ]);
    if forall|i: int| 0 <= i < events.len() ==> (#[trigger] dispatch_of(events[i])) is Forward {
        assert forall|i: int| 0 <= i < events.len() implies (#[trigger] call_of(
            events[i],
            answers[i],
        )) is Some by {
            assert(dispatch_of(events[i]) is Forward);
        }
        lemma_drain_one_call_per_event(pre, events, answers);
        assert forall|i: int| 0 <= i < events.len() implies #[trigger] forwarded(events)[i]
            == Call::Forward(dispatch_of(events[i])->0) by {
            assert(dispatch_of(events[i]) is Forward);
            assert(Some(drained.calls[pre.calls.len() + i]) == call_of(events[i], answers[i]));
            assert(drained.calls[pre.calls.len() + i] == forwarded(events)[i]);
        }
    }
}

/// A quit request that the handler grants ends the run, but not the
/// iteration: `update` and `draw` are still called, and if both succeed the
/// loop is terminating with nothing to report, so that `finish` returns
/// success.
pub proof fn lemma_granted_quit_terminates(
    pre: LoopModel,
    events: Seq<RawEvent>,
    answers: Seq<bool>,
    i: int,
    dt: Duration,
)
    requires
        pre.state is Running,
        pre.wf(),
        answers.len() == events.len(),
        0 <= i < events.len(),
        events[i] is Quit,
        !answers[i],
    ensures
        ({
            let post = pre.after_frame(events, answers, dt, Ok(()), Ok(()));
            &&& post.state is Terminating
            &&& post.outcome() == Ok::<(), GameError>(())
            &&& post.calls.len() >= 2
            &&& post.calls[post.calls.len() - 2] == Call::Update { dt, result: Ok(()) }
            &&& post.calls[post.calls.len() - 1] == Call::Draw { result: Ok(()) }
            &&& post.after_finish().state is Terminated
        }),
{
    lemma_drain_flag(pre, events, answers);
    lemma_after_events_frame(pre, events, answers);
    assert(stops(events[i], answers[i]));
}

/// A run whose first drain is one quit request, which the handler grants,
/// and whose `update` and `draw` succeed, makes three handler calls in all:
/// `quit_event`, `update` with the elapsed time, `draw`. It ends after that
/// one iteration, and `finish` returns success.
pub proof fn lemma_quit_on_first_iteration(dt: Duration)
    ensures
        ({
            let post = LoopModel::initial().after_start(Ok(())).after_frame(
                seq![RawEvent::Quit],
                seq![false],
                dt,
                Ok(()),
                Ok(()),
            );
            &&& post.state is Terminating
            &&& post.calls == seq![
                Call::Quit { keep_running: false },
                Call::Update { dt, result: Ok(()) },
                Call::Draw { result: Ok(()) },
            ]
            &&& post.outcome() == Ok::<(), GameError>(())
            &&& post.after_finish().state is Terminated
        }),
{
    let started = LoopModel::initial().after_start(Ok(()));
    let events = seq![RawEvent::Quit];
    let answers = seq![false];
    assert(events.drop_last() =~= Seq::<RawEvent>::empty());
    assert(started.after_events(events.drop_last(), answers.drop_last()) == started);
    let drained = started.after_events(events, answers);
    assert(drained == started.after_quit(false));
    let post = drained.after_advance(dt, Ok(()), Ok(()));
    assert(post.calls =~= seq![
        Call::Quit { keep_running: false },
        Call::Update { dt, result: Ok(()) },
        Call::Draw { result: Ok(()) },
    ]);
}

/// A quit request that the handler refuses does not end the run: where no
/// other event of the drain stops it, the loop is running after the
/// iteration.
pub proof fn lemma_refused_quit_continues(
    pre: LoopModel,
    events: Seq<RawEvent>,
    answers: Seq<bool>,
    i: int,
    dt: Duration,
)
    requires
        pre.state is Running,
        pre.continuing,
        answers.len() == events.len(),
        0 <= i < events.len(),
        events[i] is Quit,
        answers[i],
        forall|j: int| 0 <= j < events.len() && j != i ==> !#[trigger] stops(events[j], answers[j]),
    ensures
        pre.after_frame(events, answers, dt, Ok(()), Ok(())).state is Running,
        pre.after_frame(events, answers, dt, Ok(()), Ok(())).continuing,
{
    lemma_drain_flag(pre, events, answers);
    lemma_after_events_frame(pre, events, answers);
    assert forall|j: int| 0 <= j < events.len() implies !#[trigger] stops(
        events[j],
        answers[j],
    ) by {
        if j == i {
            assert(!stops(events[i], answers[i]));
        }
    }
}

/// The escape key going down is never forwarded: the translator answers it
/// with `Exit`, whatever the modifiers and whether or not it is a repeat.
pub proof fn lemma_escape_down_exits(code: Keycode, modifiers: Mod, repeat: bool)
    requires
        code.is_escape(),
    ensures
        dispatch_of(RawEvent::KeyDown { code: Some(code), modifiers, repeat }) == Dispatch::Exit,
        forall|keep_running: bool|
            #![auto]
            call_of(RawEvent::KeyDown { code: Some(code), modifiers, repeat }, keep_running)
                is None,
{
}

/// No drain ever calls `key_down_event` with the escape key.
pub proof fn lemma_escape_never_delivered(
    pre: LoopModel,
    events: Seq<RawEvent>,
    answers: Seq<bool>,
    j: int,
)
    requires
        answers.len() == events.len(),
        pre.calls.len() <= j < pre.after_events(events, answers).calls.len(),
    ensures
        pre.after_events(events, answers).calls[j] matches Call::Forward(
            Callback::KeyDown { code, .. },
        ) ==> !code.is_escape(),
{
    lemma_drain_calls_come_from_events(pre, events, answers, j);
}

/// The escape key going down ends the run wherever it stands in the drain
/// and whatever the handler answers to quit requests before or after it.
/// The iteration is still completed: `update` and `draw` are called, and if
/// both succeed the loop is terminating and `finish` returns success.
pub proof fn lemma_escape_terminates(
    pre: LoopModel,
    events: Seq<RawEvent>,
    answers: Seq<bool>,
    i: int,
    dt: Duration,
)
    requires
        pre.state is Running,
        pre.wf(),
        answers.len() == events.len(),
        0 <= i < events.len(),
        events[i] matches RawEvent::KeyDown { code: Some(code), .. } && code.is_escape(),
    ensures
        ({
            let post = pre.after_frame(events, answers, dt, Ok(()), Ok(()));
            &&& !pre.after_events(events, answers).continuing
            &&& post.state is Terminating
            &&& post.outcome() == Ok::<(), GameError>(())
            &&& post.calls.len() >= 2
            &&& post.calls[post.calls.len() - 2] == Call::Update { dt, result: Ok(()) }
            &&& post.calls[post.calls.len() - 1] == Call::Draw { result: Ok(()) }
        }),
{
    lemma_drain_flag(pre, events, answers);
    lemma_after_events_frame(pre, events, answers);
    assert(stops(events[i], answers[i]));
}

/// A key coming up is forwarded with its code, modifiers and repeat flag
/// as they are; the escape key is no exception.
pub proof fn lemma_key_up_forwarded(code: Keycode, modifiers: Mod, repeat: bool)
    ensures
        dispatch_of(RawEvent::KeyUp { code: Some(code), modifiers, repeat }) == Dispatch::Forward(
            Callback::KeyUp { code, modifiers, repeat },
        ),
        forall|keep_running: bool|
            #![auto]
            !stops(RawEvent::KeyUp { code: Some(code), modifiers, repeat }, keep_running),
{
}

/// A resize is forwarded with the width and height that the source
/// reported.
pub proof fn lemma_resize_forwarded(width: u32, height: u32)
    ensures
        dispatch_of(RawEvent::WindowResized { width, height }) == Dispatch::Forward(
            Callback::Resize { width, height },
        ),
{
}

/// If `update` fails, `draw` is not called in that iteration: the call of
/// `update` is the last one recorded, the loop is terminating, and `finish`
/// returns the error of `update` as it is.
pub proof fn lemma_update_failure(
    pre: LoopModel,
    dt: Duration,
    error: GameError,
    draw: GameResult<()>,
)
    ensures
        ({
            let post = pre.after_advance(dt, Err(error), draw);
            &&& post.calls == pre.calls.push(Call::Update { dt, result: Err(error) })
            &&& post.state is Terminating
            &&& post.outcome() == Err::<(), GameError>(error)
            &&& post.after_finish().state is Terminated
        }),
{
}

/// If `draw` fails, it does so after `update` has succeeded in the same
/// iteration: both calls are recorded in that order, the loop is
/// terminating, and `finish` returns the error of `draw` as it is.
pub proof fn lemma_draw_failure(pre: LoopModel, dt: Duration, error: GameError)
    ensures
        ({
            let post = pre.after_advance(dt, Ok(()), Err(error));
            &&& post.calls == pre.calls.push(Call::Update { dt, result: Ok(()) }).push(
                Call::Draw { result: Err(error) },
            )
            &&& post.state is Terminating
            &&& post.outcome() == Err::<(), GameError>(error)
        }),
{
}

/// Where both calls succeed, the loop runs on exactly if the continuation
/// flag is still set; otherwise it is terminating with nothing to report.
pub proof fn lemma_advance_success(pre: LoopModel, dt: Duration)
    requires
        pre.state is Running,
        pre.wf(),
    ensures
        ({
            let post = pre.after_advance(dt, Ok(()), Ok(()));
            &&& post.state is Running <==> pre.continuing
            &&& post.state is Terminating <==> !pre.continuing
            &&& post.outcome() == Ok::<(), GameError>(())
            &&& post.continuing == pre.continuing
        }),
{
}

/// Every step, taken in the state it is meant for, keeps the loop well
/// formed: a loop that is starting or running has no error pending.
pub proof fn lemma_steps_keep_wf(
    pre: LoopModel,
    acquired: Result<(), String>,
    events: Seq<RawEvent>,
    answers: Seq<bool>,
    dt: Duration,
    update: GameResult<()>,
    draw: GameResult<()>,
)
    requires
        pre.wf(),
    ensures
        LoopModel::initial().wf(),
        pre.state is Initializing ==> pre.after_start(acquired).wf(),
        pre.after_events(events, answers).wf(),
        pre.state is Running ==> pre.after_advance(dt, update, draw).wf(),
        pre.state is Running ==> pre.after_frame(events, answers, dt, update, draw).wf(),
        pre.after_finish().wf(),
{
    lemma_after_events_frame(pre, events, answers);
}

/// A run whose event source cannot be acquired never runs: the loop goes
/// from initializing straight to terminating, no handler method is called,
/// and `finish` returns the startup failure with the source's message.
pub proof fn lemma_startup_failure(message: String)
    ensures
        ({
            let post = LoopModel::initial().after_start(Err(message));
            &&& post.state is Terminating
            &&& post.calls.len() == 0
            &&& post.outcome() == Err::<(), GameError>(GameError::StartupFailure(message))
        }),
        LoopModel::initial().after_start(Ok(())).state is Running,
{
}

} // verus!
