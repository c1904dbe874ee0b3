//! The handler contract and the loop driver.

use crate::error::{GameError, GameResult};
use crate::input::{Axis, Button, Keycode, Mod, MouseButton, MouseState};
use crate::raw::RawEvent;
use crate::model::{
    lemma_after_events_frame, lemma_after_events_push, lends_context, silent, Call, LoopModel,
    LoopState,
};
use crate::translator::{dispatch_of, translate, Callback, Dispatch};
use core::time::Duration;
use vstd::prelude::*;

verus! {

/// The callbacks of an application. A type implements `update` and `draw`
/// and overrides the input callbacks it cares about; the others do nothing.
///
/// The loop calls one method at a time, each to completion, and lends the
/// context for the length of that call only.
pub trait EventHandler: Sized {
    /// What the application reaches through the loop: its window, its
    /// renderer, whatever `update`, `draw` and `resize_event` need. The loop
    /// never looks inside.
    type Context;

    /// Advances the application by `dt`. An error ends the run.
    fn update(&mut self, ctx: &mut Self::Context, dt: Duration) -> GameResult<()>;

    /// Renders the current state. An error ends the run.
    fn draw(&mut self, ctx: &mut Self::Context) -> GameResult<()>;

    fn mouse_button_down_event(&mut self, button: MouseButton, x: i32, y: i32)
        default_ensures
            *final(self) == *old(self),
    {
    }

    fn mouse_button_up_event(&mut self, button: MouseButton, x: i32, y: i32)
        default_ensures
            *final(self) == *old(self),
    {
    }

    fn mouse_motion_event(&mut self, state: MouseState, x: i32, y: i32, dx: i32, dy: i32)
        default_ensures
            *final(self) == *old(self),
    {
    }

    fn mouse_wheel_event(&mut self, dx: i32, dy: i32)
        default_ensures
            *final(self) == *old(self),
    {
    }

    fn key_down_event(&mut self, code: Keycode, modifiers: Mod, repeat: bool)
        default_ensures
            *final(self) == *old(self),
    {
    }

    fn key_up_event(&mut self, code: Keycode, modifiers: Mod, repeat: bool)
        default_ensures
            *final(self) == *old(self),
    {
    }

    fn controller_button_down_event(&mut self, button: Button, device: i32)
        default_ensures
            *final(self) == *old(self),
    {
    }

    fn controller_button_up_event(&mut self, button: Button, device: i32)
        default_ensures
            *final(self) == *old(self),
    {
    }

    fn controller_axis_event(&mut self, axis: Axis, value: i16, device: i32)
        default_ensures
            *final(self) == *old(self),
    {
    }

    /// Called when the window gains or loses the input focus.
    fn focus_event(&mut self, gained: bool)
        default_ensures
            *final(self) == *old(self),
    {
    }

    /// Called upon a quit request. Returning `true` refuses it; by default
    /// the request is granted.
    fn quit_event(&mut self) -> (keep_running: bool)
        default_ensures
            !keep_running,
            *final(self) == *old(self),
    {
        false
    }

    /// Called when the user resizes the window.
    fn resize_event(&mut self, ctx: &mut Self::Context, width: u32, height: u32)
        default_ensures
            *final(self) == *old(self),
            *final(ctx) == *old(ctx),
    {
    }
}

/// The handler with no behaviour of its own: `update` and `draw` succeed
/// without doing anything, and every input callback keeps its default. A
/// loop run with it goes on until the first quit request or until the escape
/// key goes down.
#[derive(Clone, Copy, Debug, PartialEq, Eq, Default)]
pub struct Idle;

impl EventHandler for Idle {
    type Context = ();

    fn update(&mut self, ctx: &mut (), dt: Duration) -> (result: GameResult<()>)
        ensures
            result is Ok,
            *final(self) == *old(self),
    {
        Ok(())
    }

    fn draw(&mut self, ctx: &mut ()) -> (result: GameResult<()>)
        ensures
            result is Ok,
            *final(self) == *old(self),
    {
        Ok(())
    }
}

/// Whether the input callback that `callback` stands for, called with the
/// arguments that `callback` carries, can take the handler and the context
/// from what `handler` and `ctx` refer to now to what they refer to in the
/// end. Only `resize_event` is handed `ctx`.
#[verifier::inline]
pub open spec fn callback_made<S: EventHandler>(
    callback: Callback,
    handler: &mut S,
    ctx: &mut S::Context,
) -> bool {
    match callback {
        Callback::KeyDown { code, modifiers, repeat } => call_ensures(
            S::key_down_event,
            (handler, code, modifiers, repeat),
            (),
        ),
        Callback::KeyUp { code, modifiers, repeat } => call_ensures(
            S::key_up_event,
            (handler, code, modifiers, repeat),
            (),
        ),
        Callback::MouseButtonDown { button, x, y } => call_ensures(
            S::mouse_button_down_event,
            (handler, button, x, y),
            (),
        ),
        Callback::MouseButtonUp { button, x, y } => call_ensures(
            S::mouse_button_up_event,
            (handler, button, x, y),
            (),
        ),
        Callback::MouseMotion { state, x, y, dx, dy } => call_ensures(
            S::mouse_motion_event,
            (handler, state, x, y, dx, dy),
            (),
        ),
        Callback::MouseWheel { dx, dy } => call_ensures(
            S::mouse_wheel_event,
            (handler, dx, dy),
            (),
        ),
        Callback::ControllerButtonDown { button, device } => call_ensures(
            S::controller_button_down_event,
            (handler, button, device),
            (),
        ),
        Callback::ControllerButtonUp { button, device } => call_ensures(
            S::controller_button_up_event,
            (handler, button, device),
            (),
        ),
        Callback::ControllerAxis { axis, value, device } => call_ensures(
            S::controller_axis_event,
            (handler, axis, value, device),
            (),
        ),
        Callback::Focus { gained } => call_ensures(S::focus_event, (handler, gained), ()),
        Callback::Resize { width, height } => call_ensures(
            S::resize_event,
            (handler, ctx, width, height),
            (),
        ),
    }
}

/// Whether the handler call that `event` leads to can take the handler and
/// the context from what `handler` and `ctx` refer to now to what they refer
/// to in the end: `quit_event` returning `keep_running` for a quit request,
/// the input callback of the event for an event that is forwarded. An event
/// that the loop deals with alone leads to no call and asks nothing here.
#[verifier::inline]
pub open spec fn event_made<S: EventHandler>(
    event: RawEvent,
    keep_running: bool,
    handler: &mut S,
    ctx: &mut S::Context,
) -> bool {
    match dispatch_of(event) {
        Dispatch::Discard => true,
        Dispatch::Exit => true,
        Dispatch::Quit => call_ensures(S::quit_event, (handler,), keep_running),
        Dispatch::Forward(callback) => callback_made(callback, handler, ctx),
    }
}

/// Calls the input callback that `callback` stands for, with its arguments:
/// exactly one call, which takes the handler from its old value to its new
/// one. The context is lent to `resize_event` and to no other callback.
fn deliver<S: EventHandler>(ctx: &mut S::Context, handler: &mut S, callback: Callback)
    ensures
        exists|h: &mut S, c: &mut S::Context|
            mut_ref_current(h) == *old(handler) && mut_ref_future(h) == *final(handler)
                && mut_ref_current(c) == *old(ctx) && mut_ref_future(c) == *final(ctx)
                && callback_made(callback, h, c),
        !(callback is Resize) ==> *final(ctx) == *old(ctx),
{
    match callback {
        Callback::KeyDown { code, modifiers, repeat } => handler.key_down_event(
            code,
            modifiers,
            repeat,
        ),
        Callback::KeyUp { code, modifiers, repeat } => handler.key_up_event(
            code,
            modifiers,
            repeat,
        ),
        Callback::MouseButtonDown { button, x, y } => handler.mouse_button_down_event(
            button,
            x,
            y,
        ),
        Callback::MouseButtonUp { button, x, y } => handler.mouse_button_up_event(button, x, y),
        Callback::MouseMotion { state, x, y, dx, dy } => handler.mouse_motion_event(
            state,
            x,
            y,
            dx,
            dy,
        ),
        Callback::MouseWheel { dx, dy } => handler.mouse_wheel_event(dx, dy),
        Callback::ControllerButtonDown { button, device } => handler.controller_button_down_event(
            button,
            device,
        ),
        Callback::ControllerButtonUp { button, device } => handler.controller_button_up_event(
            button,
            device,
        ),
        Callback::ControllerAxis { axis, value, device } => handler.controller_axis_event(
            axis,
            value,
            device,
        ),
        Callback::Focus { gained } => handler.focus_event(gained),
        Callback::Resize { width, height } => handler.resize_event(ctx, width, height),
    }
}

/// The loop driver. It owns the loop's state and its continuation flag,
/// neither of which a handler can reach, and tells its owner after each
/// iteration whether there is another one.
///
/// The owner acquires the event source and calls [`EventLoop::start`]; while
/// the loop [is running](EventLoop::is_running) it polls the source, measures
/// the time since the previous iteration and calls [`EventLoop::frame`]; at
/// the end it calls [`EventLoop::finish`] for the result of the run.
pub struct EventLoop {
    state: LoopState,
    continuing: bool,
    failure: Option<GameError>,
    calls: Ghost<Seq<Call>>,
}

impl View for EventLoop {
    type V = LoopModel;

    closed spec fn view(&self) -> LoopModel {
        LoopModel {
            state: self.state,
            continuing: self.continuing,
            failure: if self.holds_no_error() {
                None
            } else {
                self.failure
            },
            calls: self.calls@,
        }
    }
}

impl EventLoop {
    /// Whether the loop is starting or running, and so has no error to keep.
    spec fn holds_no_error(&self) -> bool {
        self.state is Initializing || self.state is Running
    }

    #[verifier::type_invariant]
    spec fn inv(&self) -> bool {
        self.holds_no_error() ==> self.failure is None
    }

    /// Every loop is well formed: while it is starting or running no error
    /// is pending, so a run that events stop ends with success.
    pub proof fn lemma_wf(&self)
        ensures
            self@.wf(),
    {
    }

    /// A loop that has not started.
    pub fn new() -> (l: EventLoop)
        ensures
            l@ == LoopModel::initial(),
    {
        EventLoop {
            state: LoopState::Initializing,
            continuing: true,
            failure: None,
            calls: Ghost(Seq::empty()),
        }
    }

    /// Where the run stands.
    pub fn state(&self) -> (s: LoopState)
        ensures
            s == self@.state,
    {
        self.state
    }

    /// Whether the owner is to perform another iteration.
    pub fn is_running(&self) -> (b: bool)
        ensures
            b == (self@.state is Running),
    {
        match self.state {
            LoopState::Running => true,
            _ => false,
        }
    }

    /// The continuation flag: `false` once an event of this or an earlier
    /// drain has stopped the run.
    pub fn is_continuing(&self) -> (b: bool)
        ensures
            b == self@.continuing,
    {
        self.continuing
    }

    /// Starts the loop, given how the acquisition of the event source ended.
    pub fn start(&mut self, acquired: Result<(), String>)
        requires
            old(self)@.state is Initializing,
        ensures
            final(self)@ == old(self)@.after_start(acquired),
    {
        proof {
            use_type_invariant(&*self);
        }
        match acquired {
            Ok(_) => {
                self.state = LoopState::Running;
            },
            Err(message) => {
                self.state = LoopState::Terminating;
                self.failure = Some(GameError::StartupFailure(message));
            },
        }
    }

    /// Clears the continuation flag: the run ends after this iteration.
    pub fn exit(&mut self)
        requires
            old(self)@.state is Running,
        ensures
            final(self)@ == old(self)@.after_exit(),
    {
        proof {
            use_type_invariant(&*self);
        }
        self.continuing = false;
    }

    /// Takes the handler's answer to a quit request: a granted request
    /// clears the continuation flag, a refused one changes nothing.
    pub fn quit_answered(&mut self, keep_running: bool)
        requires
            old(self)@.state is Running,
        ensures
            final(self)@ == old(self)@.after_quit(keep_running),
    {
        proof {
            use_type_invariant(&*self);
        }
        if !keep_running {
            self.continuing = false;
        }
        proof {
            self.calls@ = self.calls@.push(Call::Quit { keep_running });
        }
    }

    /// Takes the result of `update`, which was called with `dt`, and says
    /// whether `draw` is to be called: it is unless `update` failed.
    pub fn updated(&mut self, dt: Duration, result: GameResult<()>) -> (draw_next: bool)
        requires
            old(self)@.state is Running,
        ensures
            final(self)@ == old(self)@.after_update(dt, result),
            draw_next == (result is Ok),
    {
        proof {
            use_type_invariant(&*self);
            self.calls@ = self.calls@.push(Call::Update { dt, result });
        }
        match result {
            Ok(_) => true,
            Err(e) => {
                self.state = LoopState::Terminating;
                self.failure = Some(e);
                false
            },
        }
    }

    /// Takes the result of `draw` and ends the iteration: the loop runs on
    /// if `draw` succeeded and the continuation flag is set.
    pub fn drawn(&mut self, result: GameResult<()>)
        requires
            old(self)@.state is Running,
        ensures
            final(self)@ == old(self)@.after_draw(result),
    {
        proof {
            use_type_invariant(&*self);
            self.calls@ = self.calls@.push(Call::Draw { result });
        }
        match result {
            Ok(_) => {
                if !self.continuing {
                    self.state = LoopState::Terminating;
                }
            },
            Err(e) => {
                self.state = LoopState::Terminating;
                self.failure = Some(e);
            },
        }
    }

    /// Translates one event and acts on it: drops it, clears the
    /// continuation flag, asks the handler about a quit request, or calls
    /// the input callback the event stands for.
    ///
    /// What the loop records is what was done to the handler: the handler
    /// and the context end as one call of that method leaves them, which is
    /// `quit_event` giving the answer that the loop took, or the input
    /// callback with the arguments of the event. An event that the loop
    /// deals with alone leaves both as they were, and of the input callbacks
    /// only `resize_event` is lent the context.
    pub fn dispatch<S: EventHandler>(
        &mut self,
        ctx: &mut S::Context,
        handler: &mut S,
        event: RawEvent,
    )
        requires
            old(self)@.state is Running,
        ensures
            exists|keep_running: bool| #[trigger]
                old(self)@.after_event(event, keep_running) == final(self)@
                    && exists|h: &mut S, c: &mut S::Context|
                    mut_ref_current(h) == *old(handler)
                        && mut_ref_future(h) == *final(handler)
                        && mut_ref_current(c) == *old(ctx)
                        && mut_ref_future(c) == *final(ctx)
                        && event_made(event, keep_running, h, c),
            silent(event) ==> *final(handler) == *old(handler),
            !lends_context(event) ==> *final(ctx) == *old(ctx),
    {
        match translate(event) {
            Dispatch::Discard => {
                assert(old(self)@.after_event(event, true) == self@);
            },
            Dispatch::Exit => {
                self.exit();
                assert(old(self)@.after_event(event, true) == self@);
            },
            Dispatch::Quit => {
                let keep_running = handler.quit_event();
                self.quit_answered(keep_running);
                assert(old(self)@.after_event(event, keep_running) == self@);
            },
            Dispatch::Forward(callback) => {
                deliver(ctx, handler, callback);
                proof {
                    use_type_invariant(&*self);
                    self.calls@ = self.calls@.push(Call::Forward(callback));
                }
                assert(old(self)@.after_event(event, true) == self@);
            },
        }
    }

    /// Dispatches the events of one drain, in their order.
    ///
    /// The handler and the context go through one value for each event:
    /// `handlers[i]` and `contexts[i]` are what event `i` found and what the
    /// event before it left, the first being the old values and the last the
    /// final ones. Each step is tied to its event as in
    /// [`EventLoop::dispatch`], with `answers[i]` the answer to a quit
    /// request.
    pub fn drain<S: EventHandler>(
        &mut self,
        ctx: &mut S::Context,
        handler: &mut S,
        events: &[RawEvent],
    )
        requires
            old(self)@.state is Running,
        ensures
            exists|answers: Seq<bool>, handlers: Seq<S>, contexts: Seq<S::Context>|
                #![trigger old(self)@.after_events(events@, answers), handlers.len(), contexts.len()]
                answers.len() == events@.len() && handlers.len() == events@.len() + 1
                    && contexts.len() == events@.len() + 1 && handlers[0] == *old(handler)
                    && contexts[0] == *old(ctx) && handlers[events@.len() as int] == *final(handler)
                    && contexts[events@.len() as int] == *final(ctx)
                    && old(self)@.after_events(events@, answers) == final(self)@
                    && forall|i: int|
                    #![trigger events@[i]]
                    0 <= i < events@.len() ==> (silent(events@[i]) ==> handlers[i + 1]
                        == handlers[i]) && (!lends_context(events@[i]) ==> contexts[i + 1]
                        == contexts[i]) && exists|h: &mut S, c: &mut S::Context|
                        mut_ref_current(h) == handlers[i] && mut_ref_future(h) == handlers[i + 1]
                            && mut_ref_current(c) == contexts[i]
                            && mut_ref_future(c) == contexts[i + 1]
                            && event_made(events@[i], answers[i], h, c),
            (forall|i: int| 0 <= i < events@.len() ==> silent(#[trigger] events@[i]))
                ==> *final(handler) == *old(handler),
            (forall|i: int| 0 <= i < events@.len() ==> !lends_context(#[trigger] events@[i]))
                ==> *final(ctx) == *old(ctx),
    {
        let ghost mut answers: Seq<bool> = Seq::empty();
        let ghost mut handlers: Seq<S> = seq![*handler];
        let ghost mut contexts: Seq<S::Context> = seq![*ctx];
        let mut i: usize = 0;
        while i < events.len()
            invariant
                i <= events@.len(),
                answers.len() == i,
                handlers.len() == i + 1,
                contexts.len() == i + 1,
                handlers[0] == *old(handler),
                contexts[0] == *old(ctx),
                handlers[i as int] == *handler,
                contexts[i as int] == *ctx,
                self@.state is Running,
                self@ == old(self)@.after_events(events@.take(i as int), answers),
                forall|k: int|
                    #![trigger events@[k]]
                    0 <= k < i ==> (silent(events@[k]) ==> handlers[k + 1] == handlers[k]) && (
                    !lends_context(events@[k]) ==> contexts[k + 1] == contexts[k]) && exists|
                        h: &mut S,
                        c: &mut S::Context,
                    |
                        mut_ref_current(h) == handlers[k] && mut_ref_future(h) == handlers[k + 1]
                            && mut_ref_current(c) == contexts[k]
                            && mut_ref_future(c) == contexts[k + 1]
                            && event_made(events@[k], answers[k], h, c),
                (forall|k: int| 0 <= k < i ==> silent(#[trigger] events@[k]))
                    ==> *handler == *old(handler),
                (forall|k: int| 0 <= k < i ==> !lends_context(#[trigger] events@[k])) ==> *ctx
                    == *old(ctx),
            decreases events@.len() - i,
        {
            let ghost before = self@;
            let event = events[i];
            self.dispatch(ctx, handler, event);
            proof {
                let keep_running = choose|keep_running: bool| #[trigger]
                    before.after_event(event, keep_running) == self@;
                if dispatch_of(event) is Quit {
                    assert(self@.calls.last() == Call::Quit { keep_running });
                }
                lemma_after_events_push(
                    old(self)@,
                    events@.take(i as int),
                    answers,
                    event,
                    keep_running,
                );
                assert(events@.take(i as int).push(event) =~= events@.take(i + 1));
                answers = answers.push(keep_running);
                handlers = handlers.push(*handler);
                contexts = contexts.push(*ctx);
            }
            i = i + 1;
        }
        assert(events@.take(i as int) =~= events@);
    }

    /// Performs the second half of an iteration: calls `update` with `dt`,
    /// then `draw` unless `update` failed, and decides whether there is
    /// another iteration. An error of either call ends the run and is kept
    /// for [`EventLoop::finish`].
    ///
    /// The results that the loop acts on are those of the calls: `update`
    /// is called with `dt` on the handler and the context as they were and
    /// returns `update`; if that is an error, what it left is final;
    /// otherwise `draw` is called on what `update` left and returns `draw`.
    pub fn advance<S: EventHandler>(&mut self, ctx: &mut S::Context, handler: &mut S, dt: Duration)
        requires
            old(self)@.state is Running,
        ensures
            exists|update: GameResult<()>, draw: GameResult<()>| #[trigger]
                old(self)@.after_advance(dt, update, draw) == final(self)@
                    && exists|h1: &mut S, c1: &mut S::Context|
                    mut_ref_current(h1) == *old(handler)
                        && mut_ref_current(c1) == *old(ctx)
                        && call_ensures(S::update, (h1, c1, dt), update)
                        && (update is Err ==> mut_ref_future(h1) == *final(handler)
                        && mut_ref_future(c1) == *final(ctx))
                        && (update is Ok ==> exists|h2: &mut S, c2: &mut S::Context|
                        mut_ref_current(h2) == mut_ref_future(h1)
                            && mut_ref_current(c2) == mut_ref_future(c1)
                            && mut_ref_future(h2) == *final(handler)
                            && mut_ref_future(c2) == *final(ctx)
                            && call_ensures(S::draw, (h2, c2), draw)),
    {
        let update = handler.update(ctx, dt);
        let ghost updated = update;
        if self.updated(dt, update) {
            let draw = handler.draw(ctx);
            let ghost drawn = draw;
            self.drawn(draw);
            assert(old(self)@.after_advance(dt, updated, drawn) == self@);
        } else {
            assert(old(self)@.after_advance(dt, updated, Ok(())) == self@);
        }
    }

    /// Performs one iteration: the drain of `events`, then `update` with
    /// `dt`, then `draw`. Afterwards the loop is running, or it is
    /// terminating and waits for [`EventLoop::finish`].
    ///
    /// The handler and the context go through the values of the drain, as
    /// in [`EventLoop::drain`]; what the last event left is what `update`
    /// finds, and from there on the calls are tied as in
    /// [`EventLoop::advance`].
    pub fn frame<S: EventHandler>(
        &mut self,
        ctx: &mut S::Context,
        handler: &mut S,
        events: &[RawEvent],
        dt: Duration,
    )
        requires
            old(self)@.state is Running,
        ensures
            exists|
                answers: Seq<bool>,
                update: GameResult<()>,
                draw: GameResult<()>,
                handlers: Seq<S>,
                contexts: Seq<S::Context>,
            |
                #![trigger old(self)@.after_events(events@, answers).after_advance(dt, update, draw), handlers.len(), contexts.len()]
                answers.len() == events@.len() && handlers.len() == events@.len() + 1
                    && contexts.len() == events@.len() + 1 && handlers[0] == *old(handler)
                    && contexts[0] == *old(ctx)
                    && old(self)@.after_frame(events@, answers, dt, update, draw) == final(self)@
                    && (forall|i: int|
                    #![trigger events@[i]]
                    0 <= i < events@.len() ==> (silent(events@[i]) ==> handlers[i + 1]
                        == handlers[i]) && (!lends_context(events@[i]) ==> contexts[i + 1]
                        == contexts[i]) && exists|h: &mut S, c: &mut S::Context|
                        mut_ref_current(h) == handlers[i] && mut_ref_future(h) == handlers[i + 1]
                            && mut_ref_current(c) == contexts[i]
                            && mut_ref_future(c) == contexts[i + 1]
                            && event_made(events@[i], answers[i], h, c)) && exists|
                    h1: &mut S,
                    c1: &mut S::Context,
                |
                    mut_ref_current(h1) == handlers[events@.len() as int]
                        && mut_ref_current(c1) == contexts[events@.len() as int]
                        && call_ensures(S::update, (h1, c1, dt), update)
                        && (update is Err ==> mut_ref_future(h1) == *final(handler)
                        && mut_ref_future(c1) == *final(ctx))
                        && (update is Ok ==> exists|h2: &mut S, c2: &mut S::Context|
                        mut_ref_current(h2) == mut_ref_future(h1)
                            && mut_ref_current(c2) == mut_ref_future(c1)
                            && mut_ref_future(h2) == *final(handler)
                            && mut_ref_future(c2) == *final(ctx)
                            && call_ensures(S::draw, (h2, c2), draw)),
    {
        self.drain(ctx, handler, events);
        proof {
            let answers = choose|answers: Seq<bool>|
                answers.len() == events@.len() && #[trigger] old(self)@.after_events(
                    events@,
                    answers,
                ) == self@;
            lemma_after_events_frame(old(self)@, events@, answers);
        }
        self.advance(ctx, handler, dt);
    }

    /// Ends the run and hands out its result: the error that stopped the
    /// loop, or success where events stopped it.
    pub fn finish(&mut self) -> (result: GameResult<()>)
        requires
            old(self)@.state is Terminating,
        ensures
            result == old(self)@.outcome(),
            final(self)@ == old(self)@.after_finish(),
    {
        let mut ended = EventLoop {
            state: LoopState::Terminated,
            continuing: self.continuing,
            failure: None,
            calls: Ghost(self.calls@),
        };
        core::mem::swap(self, &mut ended);
        match ended.failure {
            Some(e) => Err(e),
            None => Ok(()),
        }
    }
}

} // verus!
