//! The run loop as a state machine.
//!
//! The loop is cut into stages. At each stage either the host has work to do
//! (drain the event queue, draw the overlay, swap the buffers, sleep) or a
//! hook of the application is due. The host looks at [`RunLoop::stage`], does
//! its part if the stage asks for one, and calls [`RunLoop::step`], which calls
//! the hook that is due, if one is, and moves on. Every step calls at most one
//! hook. One frame is `Poll, Dispatch.., Update, Render, (Overlay,) Present,
//! Rest`, with one step at `Dispatch` for each event that the host drained and
//! one more to leave it. A request to close is looked at after `Rest`, where
//! the next frame would begin, and a failing hook ends the loop at once.
//! Either way `Destroy` comes next and then `Finished`.
//!
//! The frame budget is kept by sleeping for what is left of it after the
//! frame's work. This differs from sleeping a fixed sixtieth of a second
//! whatever the work took, which makes every frame too long by its work time.

use vstd::prelude::*;

use crate::app::{answers, invoke, App, Hook};
use crate::error::Error;
use crate::event::Event;
use crate::framework::{Context, ContextView, Viewport};

verus! {

/// What is due next in the run loop.
#[derive(Clone, Copy, Debug, PartialEq, Eq, Structural)]
pub enum Stage {
    /// The host drains the platform's event queue and hands the events over.
    Poll,
    /// The events that were handed over are dispatched, one with each step.
    Dispatch,
    /// The `update` hook is called.
    Update,
    /// The `render` hook is called.
    Render,
    /// The host builds and draws one overlay frame.
    Overlay,
    /// The host swaps the front and back buffers.
    Present,
    /// The host sleeps for the rest of the frame budget.
    Rest,
    /// The `destroy` hook is called.
    Destroy,
    /// The loop is over; nothing is due.
    Finished,
}

impl Stage {
    /// Whether the stage belongs to a frame.
    pub open spec fn in_frame(self) -> bool {
        !(self is Destroy) && !(self is Finished)
    }
}

/// The time that one frame may take, in nanoseconds: a sixtieth of a second.
pub const FRAME_BUDGET_NANOS: u64 = 1_000_000_000 / 60;

/// The stage that follows `stage`. `ok` tells whether the work of `stage`
/// succeeded, `more` whether an event was waiting to be dispatched, `closing`
/// whether the context has been asked to close, and `overlay` whether an
/// overlay is drawn.
pub open spec fn next_stage(stage: Stage, ok: bool, more: bool, closing: bool, overlay: bool) -> Stage {
    match stage {
        Stage::Finished => Stage::Finished,
        Stage::Destroy => Stage::Finished,
        _ => if !ok {
            Stage::Destroy
        } else {
            match stage {
                Stage::Poll => Stage::Dispatch,
                Stage::Dispatch => if more {
                    Stage::Dispatch
                } else {
                    Stage::Update
                },
                Stage::Update => Stage::Render,
                Stage::Render => if overlay {
                    Stage::Overlay
                } else {
                    Stage::Present
                },
                Stage::Overlay => Stage::Present,
                Stage::Present => Stage::Rest,
                _ => if closing {
                    Stage::Destroy
                } else {
                    Stage::Poll
                },
            }
        },
    }
}

/// What a [`RunLoop`] holds, for contracts.
pub struct LoopView {
    pub stage: Stage,
    /// The events that were handed over and have not been dispatched yet.
    pub pending: Seq<Event>,
    /// The first failure of the run, if there was one.
    pub failure: Option<Error>,
}

impl LoopView {
    /// The event that the next step dispatches, if it dispatches one.
    pub open spec fn event_due(self) -> Option<Event> {
        if self.stage is Dispatch && self.pending.len() > 0 {
            Some(self.pending[0])
        } else {
            None
        }
    }

    /// The hook that the next step calls, if it calls one.
    pub open spec fn due(self) -> Option<Hook> {
        match self.stage {
            Stage::Dispatch => match self.event_due() {
                Some(event) => Some(Hook::of(event)),
                None => None,
            },
            Stage::Update => Some(Hook::Update),
            Stage::Render => Some(Hook::Render),
            Stage::Destroy => Some(Hook::Destroy),
            _ => None,
        }
    }

    /// The loop after the work of its stage came to `outcome`. At `Poll` the
    /// events are taken in for dispatch; at `Dispatch` the event that was due
    /// has been dealt with; whatever waits is dropped when the loop leaves its
    /// frames. The first failure is kept as a `FrameError` with the hook's
    /// diagnostic; later ones do not replace it. A loop that is `Finished`
    /// stays as it is.
    pub open spec fn next(
        self,
        events: Seq<Event>,
        outcome: Result<(), String>,
        closing: bool,
        overlay: bool,
    ) -> LoopView {
        let stage = next_stage(
            self.stage,
            outcome is Ok,
            self.pending.len() > 0,
            closing,
            overlay,
        );
        if self.stage is Finished {
            self
        } else {
            LoopView {
                stage,
                pending: if !stage.in_frame() {
                    Seq::empty()
                } else if self.stage is Poll {
                    events
                } else if self.event_due() is Some {
                    self.pending.drop_first()
                } else {
                    self.pending
                },
                failure: match (self.failure, outcome) {
                    (None, Err(diagnostic)) => Some(Error::FrameError(diagnostic)),
                    _ => self.failure,
                },
            }
        }
    }

    /// The context after the step that is due, which changes it only by the
    /// event that it dispatches.
    pub open spec fn context_after(self, ctx: ContextView) -> ContextView {
        match self.event_due() {
            Some(event) => ctx.after(event),
            None => ctx,
        }
    }

    /// The viewport that the host has to apply after the step that is due:
    /// that of the new size if the step dispatches a resize.
    pub open spec fn refresh(self, ctx: ContextView) -> Option<Viewport> {
        match self.event_due() {
            Some(event) => ctx.refresh(event),
            None => None,
        }
    }

    /// The loop after the step that is due, taken with the context `ctx` and
    /// the events `events` at hand, when the hook that is due answers
    /// `outcome`: the loop moves on as the context says after the step.
    pub open spec fn after_step(
        self,
        ctx: ContextView,
        events: Seq<Event>,
        outcome: Result<(), String>,
    ) -> LoopView {
        let after = self.context_after(ctx);
        self.next(events, outcome, after.should_close, after.overlay)
    }

    /// What the run came to so far: its first failure, or success.
    pub open spec fn result(self) -> Result<(), Error> {
        match self.failure {
            Some(error) => Err(error),
            None => Ok(()),
        }
    }
}

/// The run loop of one application.
pub struct RunLoop {
    stage: Stage,
    pending: Vec<Event>,
    failure: Option<Error>,
}

impl View for RunLoop {
    type V = LoopView;

    closed spec fn view(&self) -> LoopView {
        LoopView { stage: self.stage, pending: self.pending@, failure: self.failure }
    }
}

impl RunLoop {
    /// A loop before its first frame. If the context has already been asked to
    /// close, no frame is run and `Destroy` is due at once.
    pub fn new(ctx: &Context) -> (run: RunLoop)
        ensures
            run@ == (LoopView {
                stage: if ctx@.should_close {
                    Stage::Destroy
                } else {
                    Stage::Poll
                },
                pending: Seq::empty(),
                failure: None,
            }),
    {
        RunLoop {
            stage: if ctx.should_close() {
                Stage::Destroy
            } else {
                Stage::Poll
            },
            pending: Vec::new(),
            failure: None,
        }
    }

    /// Begins a run: builds the application, which happens once, and then the
    /// loop for it.
    pub fn start<A: App>(ctx: &Context) -> (r: (RunLoop, A))
        ensures
            r.0@ == (LoopView {
                stage: if ctx@.should_close {
                    Stage::Destroy
                } else {
                    Stage::Poll
                },
                pending: Seq::empty(),
                failure: None,
            }),
            call_ensures(A::new, (ctx,), r.1),
    {
        let app = A::new(ctx);
        (RunLoop::new(ctx), app)
    }

    /// What is due next.
    pub fn stage(&self) -> (stage: Stage)
        ensures
            stage == self@.stage,
    {
        self.stage
    }

    /// Whether the loop is over.
    pub fn is_finished(&self) -> (finished: bool)
        ensures
            finished == (self@.stage is Finished),
    {
        match self.stage {
            Stage::Finished => true,
            _ => false,
        }
    }

    /// The event that the next step dispatches, if it dispatches one.
    pub fn event_due(&self) -> (event: Option<Event>)
        ensures
            event == self@.event_due(),
    {
        match self.stage {
            Stage::Dispatch => if self.pending.len() > 0 {
                Some(self.pending[0])
            } else {
                None
            },
            _ => None,
        }
    }

    /// Takes note of how the work of the current stage ended and moves on to
    /// the next stage. `events` is what the host drained; it is looked at only
    /// at `Poll`.
    pub fn advance(
        &mut self,
        events: Vec<Event>,
        outcome: Result<(), String>,
        closing: bool,
        overlay: bool,
    )
        ensures
            final(self)@ == old(self)@.next(events@, outcome, closing, overlay),
    {
        let stage = self.stage;
        match stage {
            Stage::Finished => {},
            Stage::Destroy => {
                self.note(outcome);
                self.stage = Stage::Finished;
                self.pending.clear();
            },
            _ => {
                if outcome.is_err() {
                    self.note(outcome);
                    self.stage = Stage::Destroy;
                    self.pending.clear();
                } else {
                    match stage {
                        Stage::Poll => {
                            self.pending = events;
                            self.stage = Stage::Dispatch;
                        },
                        Stage::Dispatch => {
                            if self.pending.len() > 0 {
                                self.pending.remove(0);
                            } else {
                                self.stage = Stage::Update;
                            }
                        },
                        Stage::Update => {
                            self.stage = Stage::Render;
                        },
                        Stage::Render => {
                            self.stage = if overlay {
                                Stage::Overlay
                            } else {
                                Stage::Present
                            };
                        },
                        Stage::Overlay => {
                            self.stage = Stage::Present;
                        },
                        Stage::Present => {
                            self.stage = Stage::Rest;
                        },
                        _ => {
                            if closing {
                                self.stage = Stage::Destroy;
                                self.pending.clear();
                            } else {
                                self.stage = Stage::Poll;
                            }
                        },
                    }
                }
            },
        }
    }

    /// Keeps `outcome` as the failure of the run if it is the first one.
    fn note(&mut self, outcome: Result<(), String>)
        ensures
            final(self).stage == old(self).stage,
            final(self).pending == old(self).pending,
            final(self).failure == match (old(self).failure, outcome) {
                (None, Err(diagnostic)) => Some(Error::FrameError(diagnostic)),
                _ => old(self).failure,
            },
    {
        if self.failure.is_none() {
            if let Err(diagnostic) = outcome {
                self.failure = Some(Error::FrameError(diagnostic));
            }
        }
    }

    /// Does what is due at the current stage as far as the application is
    /// concerned, and moves on. At `Poll` the events, which the host has just
    /// drained, are taken in; with each step at `Dispatch` one of them is taken
    /// into the context and the application hears of it; at `Update`, `Render`
    /// and `Destroy` the hook of that name is called; at the other stages,
    /// whose work is the host's, the loop only moves on. A step calls the hook
    /// that is due, once, and no other; where none is due the application is
    /// not touched, nor is it by `render`. The context changes only by the
    /// event that is dispatched. Gives the viewport that the host has to apply,
    /// if that event was a resize.
    pub fn step<A: App>(&mut self, ctx: &mut Context, app: &mut A, events: Vec<Event>) -> (refresh:
        Option<Viewport>)
        ensures
            final(ctx)@ == old(self)@.context_after(old(ctx)@),
            refresh == old(self)@.refresh(old(ctx)@),
            old(self)@.due() is None ==> *final(app) == *old(app) && final(self)@ == old(
                self,
            )@.after_step(old(ctx)@, events@, Ok(())),
            old(self)@.due() matches Some(hook) ==> exists|outcome: Result<(), String>, m: &mut A|
                *m == *old(app) && *final(m) == *final(app) && #[trigger] answers(
                    hook,
                    m,
                    final(ctx),
                    outcome,
                ) && final(self)@ == old(self)@.after_step(old(ctx)@, events@, outcome),
            old(self)@.stage is Render ==> *final(app) == *old(app),
    {
        let mut refresh: Option<Viewport> = None;
        let outcome = match self.stage {
            Stage::Dispatch => match self.event_due() {
                Some(event) => {
                    let (viewport, outcome) = ctx.dispatch(app, &event);
                    refresh = viewport;
                    outcome
                },
                None => Ok(()),
            },
            Stage::Update => invoke(Hook::Update, app, ctx),
            Stage::Render => invoke(Hook::Render, app, ctx),
            Stage::Destroy => invoke(Hook::Destroy, app, ctx),
            _ => Ok(()),
        };
        let ghost answer = outcome;
        self.advance(events, outcome, ctx.should_close(), ctx.overlay_enabled());
        proof {
            if old(self)@.due() is Some {
                let hook = old(self)@.due().unwrap();
                let m = choose|m: &mut A|
                    *m == *old(app) && *final(m) == *app && #[trigger] answers(
                        hook,
                        m,
                        &*ctx,
                        answer,
                    );
                assert(answers(hook, m, final(ctx), answer));
            }
        }
        refresh
    }

    /// Ends the run and gives its result: the first failure, or success. The
    /// host calls this once the loop is `Finished`.
    pub fn into_result(self) -> (r: Result<(), Error>)
        ensures
            r == self@.result(),
    {
        match self.failure {
            Some(error) => Err(error),
            None => Ok(()),
        }
    }
}

/// How long the host sleeps at `Rest`, in nanoseconds, after a frame whose work
/// took `elapsed_nanos`: what is left of the frame budget, and nothing if the
/// work used it up.
pub fn frame_remainder(elapsed_nanos: u64) -> (rest: u64)
    ensures
        rest == if elapsed_nanos < FRAME_BUDGET_NANOS {
            FRAME_BUDGET_NANOS - elapsed_nanos
        } else {
            0
        },
{
    if elapsed_nanos < FRAME_BUDGET_NANOS {
        FRAME_BUDGET_NANOS - elapsed_nanos
    } else {
        0
    }
}

/// The loop and the context of a run, side by side.
pub struct Session {
    pub run: LoopView,
    pub ctx: ContextView,
}

/// One step of a run, as far as its course depends on the world outside: the
/// events that the host handed over, and what the hook that was due answered.
pub struct Turn {
    pub events: Seq<Event>,
    pub outcome: Result<(), String>,
}

impl Session {
    /// The session after one step.
    pub open spec fn after(self, turn: Turn) -> Session {
        Session {
            run: self.run.after_step(self.ctx, turn.events, turn.outcome),
            ctx: self.run.context_after(self.ctx),
        }
    }

    /// The session after the first `n` of `turns`.
    pub open spec fn after_steps(self, turns: Seq<Turn>, n: nat) -> Session
        decreases n,
    {
        if n == 0 {
            self
        } else {
            self.after_steps(turns, (n - 1) as nat).after(turns[n - 1])
        }
    }

    /// How many of the first `n` steps were taken at the stage `which`. A step
    /// at `Update`, `Render` or `Destroy` calls the hook of that name once, so
    /// this is also the number of calls of that hook.
    pub open spec fn steps_at(self, turns: Seq<Turn>, n: nat, which: Stage) -> nat
        decreases n,
    {
        if n == 0 {
            0
        } else {
            let before = self.steps_at(turns, (n - 1) as nat, which);
            if self.after_steps(turns, (n - 1) as nat).run.stage == which {
                before + 1
            } else {
                before
            }
        }
    }

    /// How many of the first `n` steps were taken at the stage `which` and
    /// succeeded.
    pub open spec fn good_steps_at(self, turns: Seq<Turn>, n: nat, which: Stage) -> nat
        decreases n,
    {
        if n == 0 {
            0
        } else {
            let before = self.good_steps_at(turns, (n - 1) as nat, which);
            if self.after_steps(turns, (n - 1) as nat).run.stage == which && turns[n
                - 1].outcome is Ok {
                before + 1
            } else {
                before
            }
        }
    }

    /// How many of the first `n` steps were taken at `Rest`, succeeded, and
    /// found the context not asked to close: the frames that were followed by
    /// another.
    pub open spec fn open_rests(self, turns: Seq<Turn>, n: nat) -> nat
        decreases n,
    {
        if n == 0 {
            0
        } else {
            let before = self.open_rests(turns, (n - 1) as nat);
            let session = self.after_steps(turns, (n - 1) as nat);
            if session.run.stage is Rest && turns[n - 1].outcome is Ok
                && !session.ctx.should_close {
                before + 1
            } else {
                before
            }
        }
    }
}

/// A frame runs its stages in order: the events are taken in and dispatched,
/// then come `update`, `render`, the overlay if there is one, the buffer swap
/// and the sleep. As long as the work succeeds and nobody asks to close,
/// `Rest` leads to the next frame's `Poll`.
pub proof fn lemma_frame_order(more: bool, closing: bool, overlay: bool)
    ensures
        next_stage(Stage::Poll, true, more, closing, overlay) == Stage::Dispatch,
        next_stage(Stage::Dispatch, true, more, closing, overlay) == if more {
            Stage::Dispatch
        } else {
            Stage::Update
        },
        next_stage(Stage::Update, true, more, closing, overlay) == Stage::Render,
        next_stage(Stage::Render, true, more, closing, overlay) == if overlay {
            Stage::Overlay
        } else {
            Stage::Present
        },
        next_stage(Stage::Overlay, true, more, closing, overlay) == Stage::Present,
        next_stage(Stage::Present, true, more, closing, overlay) == Stage::Rest,
        next_stage(Stage::Rest, true, more, closing, overlay) == if closing {
            Stage::Destroy
        } else {
            Stage::Poll
        },
{
}

/// The events of a frame are dispatched one by one, in the order in which the
/// host handed them over, and each once: if the step `p` was taken at `Poll`
/// and the `j` steps after it succeeded, with `j` no more than the number of
/// events, then the loop is at `Dispatch`, what waits is the events without
/// their first `j`, and the context is what it was with those `j` taken in. So
/// the step after those calls the hook for the event `j`, if there is one, and
/// leads on to `Update` without a hook if there is none.
pub proof fn lemma_events_are_dispatched_in_order(
    start: Session,
    turns: Seq<Turn>,
    p: nat,
    j: nat,
)
    requires
        p + 1 + j <= turns.len(),
        start.after_steps(turns, p).run.stage is Poll,
        j <= turns[p as int].events.len(),
        forall|i: int| p <= i <= p + j ==> (#[trigger] turns[i]).outcome is Ok,
    ensures
        start.after_steps(turns, p + 1 + j).run.stage is Dispatch,
        start.after_steps(turns, p + 1 + j).run.pending == turns[p as int].events.skip(j as int),
        start.after_steps(turns, p + 1 + j).ctx == start.after_steps(turns, p).ctx.after_all(
            turns[p as int].events.take(j as int),
        ),
        j < turns[p as int].events.len() ==> start.after_steps(turns, p + 1 + j).run.due()
            == Some(Hook::of(turns[p as int].events[j as int])),
        j == turns[p as int].events.len() ==> start.after_steps(turns, p + 1 + j).run.due()
            is None,
    decreases j,
{
    let events = turns[p as int].events;
    if j == 0 {
        assert(turns[p as int].outcome is Ok);
        assert(events.skip(0) =~= events);
        assert(events.take(0) =~= Seq::<Event>::empty());
    } else {
        lemma_events_are_dispatched_in_order(start, turns, p, (j - 1) as nat);
        assert(turns[p + j as int].outcome is Ok);
        assert(events.skip(j - 1).drop_first() =~= events.skip(j as int));
        assert(events.take(j as int).drop_last() =~= events.take(j - 1));
        assert(events.take(j as int).last() == events[j - 1]);
    }
}

/// `render` is called once after each `update` that succeeded, and never
/// otherwise: in a run that does not begin at `Render`, the steps taken at
/// `Render`, and the one that is due if `Render` is the stage reached, are as
/// many as the steps at `Update` that succeeded. So after an `update` that
/// failed there is no further `render`.
pub proof fn lemma_render_follows_each_good_update(start: Session, turns: Seq<Turn>, n: nat)
    requires
        n <= turns.len(),
        !(start.run.stage is Render),
    ensures
        start.steps_at(turns, n, Stage::Render) + (if start.after_steps(turns, n).run.stage
            is Render {
            1nat
        } else {
            0nat
        }) == start.good_steps_at(turns, n, Stage::Update),
    decreases n,
{
    if n > 0 {
        lemma_render_follows_each_good_update(start, turns, (n - 1) as nat);
    }
}

/// A frame is begun at the start of the run and after each frame that ended
/// with the context not asked to close, and never otherwise: in a run that
/// begins at `Poll`, the steps taken at `Poll`, and the one that is due if
/// `Poll` is the stage reached, are one more than the frames that ended so.
pub proof fn lemma_frame_follows_each_open_rest(start: Session, turns: Seq<Turn>, n: nat)
    requires
        n <= turns.len(),
        start.run.stage is Poll,
    ensures
        start.steps_at(turns, n, Stage::Poll) + (if start.after_steps(turns, n).run.stage
            is Poll {
            1nat
        } else {
            0nat
        }) == start.open_rests(turns, n) + 1,
    decreases n,
{
    if n > 0 {
        lemma_frame_follows_each_open_rest(start, turns, (n - 1) as nat);
    }
}

/// A request to close ends the loop after the frame in which it is seen: once
/// the context has been asked to close it stays so, and from the next step on
/// no new frame is begun.
pub proof fn lemma_no_frame_is_begun_after_a_close_request(
    start: Session,
    turns: Seq<Turn>,
    i: nat,
    j: nat,
)
    requires
        i < j <= turns.len(),
        start.after_steps(turns, (i + 1) as nat).ctx.should_close,
    ensures
        start.after_steps(turns, j).ctx.should_close,
        i + 1 < j ==> !(start.after_steps(turns, j).run.stage is Poll),
    decreases j,
{
    if i + 1 < j {
        lemma_no_frame_is_begun_after_a_close_request(start, turns, i, (j - 1) as nat);
    }
}

/// `destroy` is called exactly once in every run, and not before the loop
/// has ended: however the steps of a run turn out, no step was taken at
/// `Destroy` while the loop is still in a frame or `Destroy` is due, and
/// exactly one was when the loop is `Finished`.
pub proof fn lemma_destroy_exactly_once(start: Session, turns: Seq<Turn>, n: nat)
    requires
        n <= turns.len(),
        !(start.run.stage is Finished),
    ensures
        start.steps_at(turns, n, Stage::Destroy) == if start.after_steps(turns, n).run.stage
            is Finished {
            1nat
        } else {
            0nat
        },
    decreases n,
{
    if n > 0 {
        lemma_destroy_exactly_once(start, turns, (n - 1) as nat);
    }
}

/// `Destroy` becomes due only when the end of the loop has been seen, and
/// then always: the step before it was taken in a frame, and either its work
/// failed or it was `Rest` with the context asked to close.
pub proof fn lemma_destroy_follows_the_end(start: Session, turns: Seq<Turn>, i: nat)
    requires
        i < turns.len(),
    ensures
        start.after_steps(turns, i + 1).run.stage is Destroy <==> {
            let before = start.after_steps(turns, i);
            before.run.stage.in_frame() && (turns[i as int].outcome is Err || (before.run.stage
                is Rest && before.ctx.should_close))
        },
{
    assert(start.after_steps(turns, i + 1) == start.after_steps(turns, i).after(turns[i as int]));
}

/// Once the loop has left its frames it never enters one again: after `Destroy`
/// has become due no `update`, `render` or other work of a frame follows, and
/// after the step at `Destroy` the loop stays `Finished`.
pub proof fn lemma_no_frame_after_the_end(start: Session, turns: Seq<Turn>, i: nat, j: nat)
    requires
        i <= j <= turns.len(),
        !start.after_steps(turns, i).run.stage.in_frame(),
    ensures
        !start.after_steps(turns, j).run.stage.in_frame(),
        i < j ==> start.after_steps(turns, j).run.stage is Finished,
    decreases j,
{
    if i < j {
        lemma_no_frame_after_the_end(start, turns, i, (j - 1) as nat);
    }
}

/// The run returns its first failure: if the step `i` is the first whose work
/// failed, and the loop was not over then, the result from there on is that
/// failure as a `FrameError`, whatever the later steps come to.
pub proof fn lemma_first_failure_is_the_result(start: Session, turns: Seq<Turn>, i: nat, n: nat)
    requires
        i < n <= turns.len(),
        start.run.failure is None,
        !(start.after_steps(turns, i).run.stage is Finished),
        turns[i as int].outcome is Err,
        forall|k: int| 0 <= k < i ==> (#[trigger] turns[k]).outcome is Ok,
    ensures
        start.after_steps(turns, n).run.result() == Err::<(), Error>(
            Error::FrameError(turns[i as int].outcome->Err_0),
        ),
    decreases n,
{
    lemma_no_failure_without_a_failing_step(start, turns, i);
    if n > i + 1 {
        lemma_first_failure_is_the_result(start, turns, i, (n - 1) as nat);
    }
}

/// A run in which no step failed returns success.
pub proof fn lemma_no_failure_without_a_failing_step(start: Session, turns: Seq<Turn>, n: nat)
    requires
        n <= turns.len(),
        start.run.failure is None,
        forall|k: int| 0 <= k < n ==> (#[trigger] turns[k]).outcome is Ok,
    ensures
        start.after_steps(turns, n).run.result() == Ok::<(), Error>(()),
    decreases n,
{
    if n > 0 {
        lemma_no_failure_without_a_failing_step(start, turns, (n - 1) as nat);
    }
}

} // verus!
