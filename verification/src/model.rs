//! The loop as a state machine over plain values: what each step of a run
//! does to the loop's state, to its continuation flag, and to the record of
//! the handler calls it has made.

use crate::error::{GameError, GameResult};
use crate::raw::RawEvent;
use crate::translator::{dispatch_of, Callback, Dispatch};
use core::time::Duration;
use vstd::prelude::*;

verus! {

/// Where a run stands.
#[derive(Clone, Copy, Debug, PartialEq, Eq)]
pub enum LoopState {
    /// The event source has not been acquired yet.
    Initializing,
    /// Iterations are being performed.
    Running,
    /// The last iteration has been performed; its result waits to be
    /// collected.
    Terminating,
    /// The run is over and its result has been handed out.
    Terminated,
}

/// One call of a handler method, with what the handler returned.
pub enum Call {
    /// An input callback.
    Forward(Callback),
    /// `quit_event`, and whether the handler refused the request.
    Quit { keep_running: bool },
    /// `update`, with the elapsed time it was given.
    Update { dt: Duration, result: GameResult<()> },
    /// `draw`.
    Draw { result: GameResult<()> },
}

/// Whether an event, with the handler's answer to it, ends the run after the
/// current iteration: the escape key going down, or a quit request that the
/// handler grants. The answer matters for quit requests only.
pub open spec fn stops(event: RawEvent, keep_running: bool) -> bool {
    match dispatch_of(event) {
        Dispatch::Exit => true,
        Dispatch::Quit => !keep_running,
        _ => false,
    }
}

/// The handler call that an event leads to, if any.
pub open spec fn call_of(event: RawEvent, keep_running: bool) -> Option<Call> {
    match dispatch_of(event) {
        Dispatch::Discard => None,
        Dispatch::Exit => None,
        Dispatch::Quit => Some(Call::Quit { keep_running }),
        Dispatch::Forward(callback) => Some(Call::Forward(callback)),
    }
}

/// The input callbacks that a drain of `events` makes, one for each event
/// that is forwarded, in the order of the source. Events that are dropped
/// leave no trace in it.
pub open spec fn forwarded(events: Seq<RawEvent>) -> Seq<Call> {
    events.filter_map(
        |event: RawEvent|
            match dispatch_of(event) {
                Dispatch::Forward(callback) => Some(Call::Forward(callback)),
                _ => None,
            },
    )
}

/// Whether an event is dealt with by the loop alone, without any call of the
/// handler: an event that is dropped, or the escape key going down.
pub open spec fn silent(event: RawEvent) -> bool {
    dispatch_of(event) is Discard || dispatch_of(event) is Exit
}

/// Whether the callback of an event is lent the context: of the input
/// callbacks only `resize_event` is.
pub open spec fn lends_context(event: RawEvent) -> bool {
    dispatch_of(event) matches Dispatch::Forward(Callback::Resize { .. })
}

/// The abstract state of a loop.
pub struct LoopModel {
    pub state: LoopState,
    /// The continuation flag: cleared by an event that stops the run, and
    /// never set again.
    pub continuing: bool,
    /// The error that ended the run, until it is handed out.
    pub failure: Option<GameError>,
    /// Every handler call made so far, oldest first.
    pub calls: Seq<Call>,
}

impl LoopModel {
    /// A loop before its start.
    pub open spec fn initial() -> LoopModel {
        LoopModel {
            state: LoopState::Initializing,
            continuing: true,
            failure: None,
            calls: Seq::empty(),
        }
    }

    /// While a loop is starting or running, no error is pending.
    pub open spec fn wf(self) -> bool {
        (self.state is Initializing || self.state is Running) ==> self.failure is None
    }

    /// What `finish` hands out: the pending error, or success.
    pub open spec fn outcome(self) -> GameResult<()> {
        match self.failure {
            Some(e) => Err(e),
            None => Ok(()),
        }
    }

    /// The loop after the attempt to acquire the event source. With the
    /// source it runs; without it the run is over before the first
    /// iteration, and the source's message becomes a startup failure.
    pub open spec fn after_start(self, acquired: Result<(), String>) -> LoopModel {
        match acquired {
            Ok(_) => LoopModel { state: LoopState::Running, ..self },
            Err(message) => LoopModel {
                state: LoopState::Terminating,
                failure: Some(GameError::StartupFailure(message)),
                ..self
            },
        }
    }

    /// The loop after the escape key went down: the continuation flag is
    /// cleared, and the handler is not called.
    pub open spec fn after_exit(self) -> LoopModel {
        LoopModel { continuing: false, ..self }
    }

    /// The loop after `quit_event` returned `keep_running`: a granted request
    /// clears the continuation flag, a refused one leaves it as it is.
    pub open spec fn after_quit(self, keep_running: bool) -> LoopModel {
        LoopModel {
            continuing: self.continuing && keep_running,
            calls: self.calls.push(Call::Quit { keep_running }),
            ..self
        }
    }

    /// The loop after an input callback.
    pub open spec fn after_forward(self, callback: Callback) -> LoopModel {
        LoopModel { calls: self.calls.push(Call::Forward(callback)), ..self }
    }

    /// The loop after one event, where `keep_running` is what the handler
    /// answered if the event was a quit request.
    pub open spec fn after_event(self, event: RawEvent, keep_running: bool) -> LoopModel {
        match dispatch_of(event) {
            Dispatch::Discard => self,
            Dispatch::Exit => self.after_exit(),
            Dispatch::Quit => self.after_quit(keep_running),
            Dispatch::Forward(callback) => self.after_forward(callback),
        }
    }

    /// The loop after a drain: the events one after the other, in the order
    /// of the source. `answers` has one entry for each event.
    pub open spec fn after_events(self, events: Seq<RawEvent>, answers: Seq<bool>) -> LoopModel
        decreases events.len(),
    {
        if events.len() == 0 {
            self
        } else {
            self.after_events(events.drop_last(), answers.drop_last()).after_event(
                events.last(),
                answers.last(),
            )
        }
    }

    /// The loop after `update`, called with `dt`, returned `result`: an
    /// error ends the run and is kept for `finish`.
    pub open spec fn after_update(self, dt: Duration, result: GameResult<()>) -> LoopModel {
        let calls = self.calls.push(Call::Update { dt, result });
        match result {
            Ok(_) => LoopModel { calls, ..self },
            Err(e) => LoopModel { state: LoopState::Terminating, failure: Some(e), calls, ..self },
        }
    }

    /// The loop after `draw` returned `result`: an error ends the run and is
    /// kept for `finish`; otherwise the continuation flag decides whether
    /// there is another iteration.
    pub open spec fn after_draw(self, result: GameResult<()>) -> LoopModel {
        let calls = self.calls.push(Call::Draw { result });
        match result {
            Ok(_) => LoopModel {
                state: if self.continuing {
                    LoopState::Running
                } else {
                    LoopState::Terminating
                },
                calls,
                ..self
            },
            Err(e) => LoopModel { state: LoopState::Terminating, failure: Some(e), calls, ..self },
        }
    }

    /// The loop after the second half of an iteration: `update` is called
    /// with `dt`, and `draw` only if `update` succeeded. `draw` says what
    /// `draw` returns if it is called.
    pub open spec fn after_advance(
        self,
        dt: Duration,
        update: GameResult<()>,
        draw: GameResult<()>,
    ) -> LoopModel {
        if update is Ok {
            self.after_update(dt, update).after_draw(draw)
        } else {
            self.after_update(dt, update)
        }
    }

    /// The loop after one whole iteration: the drain, then `update` and
    /// `draw`.
    pub open spec fn after_frame(
        self,
        events: Seq<RawEvent>,
        answers: Seq<bool>,
        dt: Duration,
        update: GameResult<()>,
        draw: GameResult<()>,
    ) -> LoopModel {
        self.after_events(events, answers).after_advance(dt, update, draw)
    }

    /// The loop after its result has been handed out.
    pub open spec fn after_finish(self) -> LoopModel {
        LoopModel { state: LoopState::Terminated, failure: None, ..self }
    }
}

/// What one event does to the loop, in terms of [`stops`] and [`call_of`]:
/// it clears the continuation flag if it stops the run, records the call it
/// stands for if there is one, and touches nothing else.
pub proof fn lemma_after_event(pre: LoopModel, event: RawEvent, keep_running: bool)
    ensures
        pre.after_event(event, keep_running) == (LoopModel {
            continuing: pre.continuing && !stops(event, keep_running),
            calls: match call_of(event, keep_running) {
                Some(call) => pre.calls.push(call),
                None => pre.calls,
            },
            ..pre
        }),
{
}

/// A drain of one more event is the drain of the events before it, followed
/// by that event.
pub proof fn lemma_after_events_push(
    pre: LoopModel,
    events: Seq<RawEvent>,
    answers: Seq<bool>,
    event: RawEvent,
    keep_running: bool,
)
    ensures
        pre.after_events(events.push(event), answers.push(keep_running)) == pre.after_events(
            events,
            answers,
        ).after_event(event, keep_running),
{
    assert(events.push(event).drop_last() =~= events);
    assert(answers.push(keep_running).drop_last() =~= answers);
}

/// A drain leaves the state of the loop and its pending error as they were:
/// events only clear the continuation flag and add to the record of calls.
pub proof fn lemma_after_events_frame(pre: LoopModel, events: Seq<RawEvent>, answers: Seq<bool>)
    ensures
        pre.after_events(events, answers).state == pre.state,
        pre.after_events(events, answers).failure == pre.failure,
        pre.wf() ==> pre.after_events(events, answers).wf(),
    decreases events.len(),
{
    if events.len() > 0 {
        lemma_after_events_frame(pre, events.drop_last(), answers.drop_last());
    }
}

} // verus!
