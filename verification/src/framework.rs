//! The window configuration and the context that the hooks see.

use std::marker::PhantomData;
use vstd::prelude::*;

use crate::app::{answers, invoke, App, Hook};
use crate::error::Error;
use crate::event::Event;

verus! {

/// The rectangle of the framebuffer that rendering is mapped to.
#[derive(Clone, Copy, Debug, PartialEq, Eq, Structural)]
pub struct Viewport {
    pub x: i32,
    pub y: i32,
    pub width: u32,
    pub height: u32,
}

/// What a [`Context`] holds, for contracts.
pub struct ContextView {
    pub width: u32,
    pub height: u32,
    pub overlay: bool,
    pub should_close: bool,
}

impl ContextView {
    /// The viewport that covers the whole framebuffer.
    pub open spec fn viewport(self) -> Viewport {
        Viewport { x: 0, y: 0, width: self.width, height: self.height }
    }

    /// The context after one event: a resize replaces the size, a quit request
    /// raises the close flag, and nothing else changes.
    pub open spec fn after(self, event: Event) -> ContextView {
        match event {
            Event::FramebufferSize { width, height } => ContextView { width, height, ..self },
            _ => if event.is_quit() {
                ContextView { should_close: true, ..self }
            } else {
                self
            },
        }
    }

    /// The viewport that the host has to apply after an event: that of the new
    /// size after a resize, none after anything else.
    pub open spec fn refresh(self, event: Event) -> Option<Viewport> {
        if event is FramebufferSize {
            Some(self.after(event).viewport())
        } else {
            None
        }
    }

    /// The context after a run of events, taken in order.
    pub open spec fn after_all(self, events: Seq<Event>) -> ContextView
        decreases events.len(),
    {
        if events.len() == 0 {
            self
        } else {
            self.after_all(events.drop_last()).after(events.last())
        }
    }
}

/// The state of the window that the framework keeps: the framebuffer size,
/// whether an overlay is drawn, and whether the loop has been asked to end.
pub struct Context {
    width: u32,
    height: u32,
    overlay: bool,
    should_close: bool,
}

impl View for Context {
    type V = ContextView;

    closed spec fn view(&self) -> ContextView {
        ContextView {
            width: self.width,
            height: self.height,
            overlay: self.overlay,
            should_close: self.should_close,
        }
    }
}

impl Context {
    /// The width of the framebuffer, in pixels.
    pub fn width(&self) -> (width: u32)
        ensures
            width == self@.width,
    {
        self.width
    }

    /// The height of the framebuffer, in pixels.
    pub fn height(&self) -> (height: u32)
        ensures
            height == self@.height,
    {
        self.height
    }

    /// Whether an overlay is drawn after each frame.
    pub fn overlay_enabled(&self) -> (overlay: bool)
        ensures
            overlay == self@.overlay,
    {
        self.overlay
    }

    /// Whether the run loop has been asked to end.
    pub fn should_close(&self) -> (closing: bool)
        ensures
            closing == self@.should_close,
    {
        self.should_close
    }

    /// The viewport for the rasterizer: the whole framebuffer at its current
    /// size. The caller hands it to the graphics driver.
    pub fn set_viewport(&self) -> (viewport: Viewport)
        ensures
            viewport == self@.viewport(),
    {
        Viewport { x: 0, y: 0, width: self.width, height: self.height }
    }

    /// Stores a new framebuffer size and gives the viewport that goes with it.
    pub fn change_view(&mut self, width: u32, height: u32) -> (viewport: Viewport)
        ensures
            final(self)@ == (ContextView { width, height, ..old(self)@ }),
            viewport == final(self)@.viewport(),
    {
        self.width = width;
        self.height = height;
        self.set_viewport()
    }

    /// The aspect ratio as an exact fraction, the width over the height; none
    /// while the framebuffer has no height.
    pub fn aspect(&self) -> (ratio: Option<(u32, u32)>)
        ensures
            ratio == if self@.height != 0 {
                Some((self@.width, self@.height))
            } else {
                None
            },
    {
        if self.height != 0 {
            Some((self.width, self.height))
        } else {
            None
        }
    }

    /// Takes one event into the context and names the hook that has to hear of
    /// it: `resized` with the new size for a resize, `event` for anything else.
    pub fn apply(&mut self, event: &Event) -> (hook: Hook)
        ensures
            final(self)@ == old(self)@.after(*event),
            hook == Hook::of(*event),
    {
        match event {
            Event::FramebufferSize { width, height } => {
                self.width = *width;
                self.height = *height;
                Hook::Resized { width: *width, height: *height }
            },
            _ => {
                if event.quits() {
                    self.should_close = true;
                }
                Hook::Event(*event)
            },
        }
    }

    /// Handles a resize: stores the new size, then tells the application,
    /// once, through its `resized` hook. Gives back the viewport that the host
    /// has to apply, and what the hook answered.
    pub fn resize<A: App>(&mut self, app: &mut A, width: u32, height: u32) -> (r: (
        Viewport,
        Result<(), String>,
    ))
        ensures
            final(self)@ == (ContextView { width, height, ..old(self)@ }),
            r.0 == final(self)@.viewport(),
            exists|m: &mut A|
                *m == *old(app) && *final(m) == *final(app) && #[trigger] answers(
                    Hook::Resized { width, height },
                    m,
                    final(self),
                    r.1,
                ),
    {
        let viewport = self.change_view(width, height);
        let outcome = invoke(Hook::Resized { width, height }, app, self);
        let r: (Viewport, Result<(), String>) = (viewport, outcome);
        proof {
            let m = choose|m: &mut A|
                *m == *old(app) && *final(m) == *app && #[trigger] answers(
                    Hook::Resized { width, height },
                    m,
                    &*self,
                    r.1,
                );
            assert(answers(Hook::Resized { width, height }, m, final(self), r.1));
        }
        r
    }

    /// Handles one event of the platform's queue: takes it into the context,
    /// then tells the application, once, through `resized` for a resize and
    /// through `event` for anything else. Gives back the viewport that the
    /// host has to apply, if the event was a resize, and what the hook
    /// answered.
    pub fn dispatch<A: App>(&mut self, app: &mut A, event: &Event) -> (r: (
        Option<Viewport>,
        Result<(), String>,
    ))
        ensures
            final(self)@ == old(self)@.after(*event),
            r.0 == old(self)@.refresh(*event),
            exists|m: &mut A|
                *m == *old(app) && *final(m) == *final(app) && #[trigger] answers(
                    Hook::of(*event),
                    m,
                    final(self),
                    r.1,
                ),
    {
        let hook = self.apply(event);
        let refresh = match hook {
            Hook::Resized { .. } => Some(self.set_viewport()),
            _ => None,
        };
        let outcome = invoke(hook, app, self);
        let r: (Option<Viewport>, Result<(), String>) = (refresh, outcome);
        proof {
            let m = choose|m: &mut A|
                *m == *old(app) && *final(m) == *app && #[trigger] answers(hook, m, &*self, r.1);
            assert(answers(Hook::of(*event), m, final(self), r.1));
        }
        r
    }
}

/// A resize is in the context before anything can read the size again: right
/// after the event the stored size is the new one, the viewport is the whole
/// framebuffer at that size and is what the host is told to apply, and the
/// hook that hears of the event is `resized` with the same size. Nothing else
/// in the context changes.
pub proof fn lemma_resize_is_stored_first(ctx: ContextView, width: u32, height: u32)
    ensures
        ctx.after(Event::FramebufferSize { width, height }) == (ContextView {
            width,
            height,
            ..ctx
        }),
        ctx.after(Event::FramebufferSize { width, height }).viewport() == (Viewport {
            x: 0,
            y: 0,
            width,
            height,
        }),
        ctx.refresh(Event::FramebufferSize { width, height }) == Some(
            Viewport { x: 0, y: 0, width, height },
        ),
        Hook::of(Event::FramebufferSize { width, height }) == (Hook::Resized { width, height }),
{
}

/// Events raise the close flag and never lower it: after a run of events the
/// context is asked to close exactly if it was before or one of the events is
/// a quit request. The overlay setting is not touched.
pub proof fn lemma_close_is_kept(ctx: ContextView, events: Seq<Event>)
    ensures
        ctx.after_all(events).should_close <==> (ctx.should_close || exists|i: int|
            0 <= i < events.len() && (#[trigger] events[i]).is_quit()),
        ctx.after_all(events).overlay == ctx.overlay,
    decreases events.len(),
{
    if events.len() > 0 {
        let front = events.drop_last();
        lemma_close_is_kept(ctx, front);
        if ctx.after_all(events).should_close && !ctx.should_close {
            if events.last().is_quit() {
                assert(events[events.len() - 1].is_quit());
            } else {
                let i = choose|i: int| 0 <= i < front.len() && (#[trigger] front[i]).is_quit();
                assert(events[i].is_quit());
            }
        }
        if exists|i: int| 0 <= i < events.len() && (#[trigger] events[i]).is_quit() {
            let i = choose|i: int| 0 <= i < events.len() && (#[trigger] events[i]).is_quit();
            if i < front.len() {
                assert(front[i].is_quit());
            }
        }
    }
}

/// The phase of a builder that has no window yet.
pub struct Empty;

/// The phase of a builder whose window has been configured.
pub struct Fully;

/// A configuration phase of a [`FrameworkBuilder`].
pub trait Phase {
    /// Whether a builder in this phase holds a window configuration.
    spec fn window_set() -> bool;
}

impl Phase for Empty {
    open spec fn window_set() -> bool {
        false
    }
}

impl Phase for Fully {
    open spec fn window_set() -> bool {
        true
    }
}

/// What a [`FrameworkBuilder`] holds, for contracts.
pub struct BuilderView {
    pub title: Seq<char>,
    pub width: u32,
    pub height: u32,
    pub use_imgui: bool,
}

impl BuilderView {
    /// A window needs a title and a size that is not zero in either direction.
    pub open spec fn valid_window(title: Seq<char>, width: u32, height: u32) -> bool {
        title.len() != 0 && width != 0 && height != 0
    }
}

/// The OpenGL version that the window's context is asked for.
pub const CONTEXT_VERSION_MAJOR: u32 = 4;

pub const CONTEXT_VERSION_MINOR: u32 = 1;

/// What the host has to open: a window of this title and size, not resizable
/// by the user, with a core-profile OpenGL context of the given version, and
/// the overlay library set up if `overlay` is set.
#[derive(Debug, PartialEq, Eq)]
pub struct WindowRequest {
    pub title: String,
    pub width: u32,
    pub height: u32,
    pub context_version: (u32, u32),
    pub core_profile: bool,
    pub resizable: bool,
    pub overlay: bool,
}

/// Collects the configuration of the framework. The phase in the type keeps
/// `build` out of reach until `window` has accepted a title and a size.
pub struct FrameworkBuilder<Framework: Phase> {
    title: String,
    width: u32,
    height: u32,
    use_imgui: bool,
    state: PhantomData<Framework>,
}

impl<Framework: Phase> View for FrameworkBuilder<Framework> {
    type V = BuilderView;

    closed spec fn view(&self) -> BuilderView {
        BuilderView {
            title: self.title@,
            width: self.width,
            height: self.height,
            use_imgui: self.use_imgui,
        }
    }
}

impl<Framework: Phase> FrameworkBuilder<Framework> {
    #[verifier::type_invariant]
    spec fn window_known(self) -> bool {
        Framework::window_set() ==> BuilderView::valid_window(self.title@, self.width, self.height)
    }
}

impl FrameworkBuilder<Empty> {
    /// A builder with nothing configured: no title, no size, no overlay.
    pub fn new() -> (builder: Self)
        ensures
            builder@ == (BuilderView { title: Seq::empty(), width: 0, height: 0, use_imgui: false }),
    {
        FrameworkBuilder {
            title: String::new(),
            width: 0,
            height: 0,
            use_imgui: false,
            state: PhantomData,
        }
    }

    /// Configures the window. An empty title or a zero dimension is refused
    /// with `InvalidConfiguration`; anything else is accepted as given.
    pub fn window(self, title: &str, width: u32, height: u32) -> (r: Result<
        FrameworkBuilder<Fully>,
        Error,
    >)
        ensures
            BuilderView::valid_window(title@, width, height) ==> (r matches Ok(builder)
                && builder@ == (BuilderView { title: title@, width, height, ..self@ })),
            !BuilderView::valid_window(title@, width, height) ==> r == Err::<
                FrameworkBuilder<Fully>,
                Error,
            >(Error::InvalidConfiguration),
    {
        if title.is_empty() || width == 0 || height == 0 {
            return Err(Error::InvalidConfiguration);
        }
        Ok(
            FrameworkBuilder {
                title: title.to_owned(),
                width,
                height,
                use_imgui: self.use_imgui,
                state: PhantomData,
            },
        )
    }
}

impl FrameworkBuilder<Fully> {
    /// Asks for the overlay. Asking twice is the same as asking once.
    pub fn use_imgui(self) -> (builder: FrameworkBuilder<Fully>)
        ensures
            builder@ == (BuilderView { use_imgui: true, ..self@ }),
    {
        proof {
            use_type_invariant(&self);
        }
        FrameworkBuilder {
            title: self.title,
            width: self.width,
            height: self.height,
            use_imgui: true,
            state: PhantomData,
        }
    }

    /// What the host has to open before `build` can give a context.
    pub fn window_request(&self) -> (request: WindowRequest)
        ensures
            request.title@ == self@.title,
            request.width == self@.width,
            request.height == self@.height,
            request.context_version == (CONTEXT_VERSION_MAJOR, CONTEXT_VERSION_MINOR),
            request.core_profile,
            !request.resizable,
            request.overlay == self@.use_imgui,
            BuilderView::valid_window(request.title@, request.width, request.height),
    {
        proof {
            use_type_invariant(self);
        }
        WindowRequest {
            title: self.title.clone(),
            width: self.width,
            height: self.height,
            context_version: (CONTEXT_VERSION_MAJOR, CONTEXT_VERSION_MINOR),
            core_profile: true,
            resizable: false,
            overlay: self.use_imgui,
        }
    }

    /// Ends the configuration. `platform` is what came of opening the window
    /// that `window_request` describes: on success the context starts with the
    /// configured size, which is not zero in either direction, and with the
    /// close flag down; a refusal is handed on as `PlatformInitError` with the
    /// platform's diagnostic.
    pub fn build(self, platform: Result<(), String>) -> (r: Result<Context, Error>)
        ensures
            platform is Ok ==> (r matches Ok(ctx) && ctx@ == (ContextView {
                width: self@.width,
                height: self@.height,
                overlay: self@.use_imgui,
                should_close: false,
            }) && ctx@.width != 0 && ctx@.height != 0),
            platform matches Err(diagnostic) ==> r == Err::<Context, Error>(
                Error::PlatformInitError(diagnostic),
            ),
    {
        proof {
            use_type_invariant(&self);
        }
        match platform {
            Ok(()) => Ok(
                Context {
                    width: self.width,
                    height: self.height,
                    overlay: self.use_imgui,
                    should_close: false,
                },
            ),
            Err(diagnostic) => Err(Error::PlatformInitError(diagnostic)),
        }
    }
}

} // verus!
