//! The hooks through which the framework drives an application.

use vstd::prelude::*;

use crate::event::Event;
use crate::framework::Context;

verus! {

/// An application that the run loop drives.
///
/// Only `new` has to be written. Every other hook does nothing and succeeds
/// unless the application overrides it. A hook that fails ends the run loop.
pub trait App: Sized {
    /// Builds the application, once, before the first frame. The context may be
    /// read but not kept.
    fn new(ctx: &Context) -> Self;

    /// Runs once per frame, before `render`.
    fn update(&mut self, ctx: &Context) -> (outcome: Result<(), String>)
        default_ensures
            outcome is Ok,
    {
        Ok(())
    }

    /// Runs once per frame, after `update`.
    fn render(&self, ctx: &Context) -> (outcome: Result<(), String>)
        default_ensures
            outcome is Ok,
    {
        Ok(())
    }

    /// Runs once, after the loop has ended and before control goes back to the
    /// caller.
    fn destroy(&mut self, ctx: &Context) -> (outcome: Result<(), String>)
        default_ensures
            outcome is Ok,
    {
        Ok(())
    }

    /// Runs once for each resize event. The context already holds the new size
    /// when the hook is entered.
    fn resized(&mut self, ctx: &Context, width: u32, height: u32) -> (outcome: Result<(), String>)
        requires
            ctx@.width == width,
            ctx@.height == height,
        default_ensures
            outcome is Ok,
    {
        Ok(())
    }

    /// Runs once for each event that is not a resize. The context already
    /// reflects the event when the hook is entered.
    fn event(&mut self, ctx: &Context, event: &Event) -> (outcome: Result<(), String>)
        default_ensures
            outcome is Ok,
    {
        Ok(())
    }
}

/// A hook of an application that the framework calls while the loop runs,
/// with what the hook is told.
#[derive(Clone, Copy, Debug, PartialEq, Eq)]
pub enum Hook {
    Update,
    Render,
    Destroy,
    /// The `resized` hook, with the new size of the framebuffer.
    Resized { width: u32, height: u32 },
    /// The `event` hook, with the event.
    Event(Event),
}

impl Hook {
    /// The hook that hears of an event: `resized` with the new size for a
    /// resize, `event` with the event for anything else.
    pub open spec fn of(event: Event) -> Hook {
        match event {
            Event::FramebufferSize { width, height } => Hook::Resized { width, height },
            _ => Hook::Event(event),
        }
    }
}

/// Whether `outcome` is what `hook` answered when it was called with `app`
/// and `ctx`. Where this holds of a reference to the application as it was
/// before a step and as it is after, the step has called that hook, once, and
/// has not touched the application otherwise.
pub open spec fn answers<A: App>(
    hook: Hook,
    app: &mut A,
    ctx: &Context,
    outcome: Result<(), String>,
) -> bool {
    match hook {
        Hook::Update => call_ensures(A::update, (app, ctx), outcome),
        Hook::Render => call_ensures(A::render, (&*app, ctx), outcome),
        Hook::Destroy => call_ensures(A::destroy, (app, ctx), outcome),
        Hook::Resized { width, height } => call_ensures(
            A::resized,
            (app, ctx, width, height),
            outcome,
        ),
        Hook::Event(event) => call_ensures(A::event, (app, ctx, &event), outcome),
    }
}

/// Calls `hook`, once, and hands back its answer. A resize may only be
/// announced once the context holds the new size.
pub fn invoke<A: App>(hook: Hook, app: &mut A, ctx: &Context) -> (outcome: Result<(), String>)
    requires
        hook matches Hook::Resized { width, height } ==> ctx@.width == width && ctx@.height
            == height,
    ensures
        exists|m: &mut A|
            *m == *old(app) && *final(m) == *final(app) && #[trigger] answers(
                hook,
                m,
                ctx,
                outcome,
            ),
        hook is Render ==> *final(app) == *old(app),
{
    match hook {
        Hook::Update => {
            let outcome = app.update(ctx);
            proof {
                let m = choose|m: &mut A|
                    *m == *old(app) && *final(m) == *app && #[trigger] call_ensures(
                        A::update,
                        (m, ctx),
                        outcome,
                    );
                assert(answers(hook, m, ctx, outcome));
            }
            outcome
        },
        Hook::Render => {
            let outcome = app.render(ctx);
            proof {
                let m = choose|m: &mut A| *m == *old(app) && *final(m) == *old(app);
                assert(answers(hook, m, ctx, outcome));
            }
            outcome
        },
        Hook::Destroy => {
            let outcome = app.destroy(ctx);
            proof {
                let m = choose|m: &mut A|
                    *m == *old(app) && *final(m) == *app && #[trigger] call_ensures(
                        A::destroy,
                        (m, ctx),
                        outcome,
                    );
                assert(answers(hook, m, ctx, outcome));
            }
            outcome
        },
        Hook::Resized { width, height } => {
            let outcome = app.resized(ctx, width, height);
            proof {
                let m = choose|m: &mut A|
                    *m == *old(app) && *final(m) == *app && #[trigger] call_ensures(
                        A::resized,
                        (m, ctx, width, height),
                        outcome,
                    );
                assert(answers(hook, m, ctx, outcome));
            }
            outcome
        },
        Hook::Event(event) => {
            let outcome = app.event(ctx, &event);
            proof {
                let m = choose|m: &mut A|
                    *m == *old(app) && *final(m) == *app && #[trigger] call_ensures(
                        A::event,
                        (m, ctx, &event),
                        outcome,
                    );
                assert(answers(hook, m, ctx, outcome));
            }
            outcome
        },
    }
}

} // verus!
