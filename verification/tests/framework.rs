use gl_framework::app::{invoke, App, Hook};
use gl_framework::error::Error;
use gl_framework::event::{Event, Key, KeyAction};
use gl_framework::framework::{Context, FrameworkBuilder, Viewport, WindowRequest};

fn context(width: u32, height: u32) -> Context {
    FrameworkBuilder::new()
        .window("test", width, height)
        .expect("a valid window")
        .build(Ok(()))
        .expect("a context")
}

/// Records what its hooks were told, and what the context said at that time.
struct Listener {
    resized: Vec<(u32, u32, u32, u32)>,
    events: Vec<(Event, bool)>,
    fail_on_resize: Option<usize>,
    fail_on_event: Option<usize>,
}

impl App for Listener {
    fn new(_ctx: &Context) -> Self {
        Listener { resized: Vec::new(), events: Vec::new(), fail_on_resize: None, fail_on_event: None }
    }

    fn resized(&mut self, ctx: &Context, width: u32, height: u32) -> Result<(), String> {
        self.resized.push((width, height, ctx.width(), ctx.height()));
        if self.fail_on_resize == Some(self.resized.len()) {
            return Err(format!("resize {} refused", self.resized.len()));
        }
        Ok(())
    }

    fn event(&mut self, ctx: &Context, event: &Event) -> Result<(), String> {
        self.events.push((*event, ctx.should_close()));
        if self.fail_on_event == Some(self.events.len()) {
            return Err(format!("event {} refused", self.events.len()));
        }
        Ok(())
    }
}

/// An application that overrides nothing.
struct Plain;

impl App for Plain {
    fn new(_ctx: &Context) -> Self {
        Plain
    }
}

#[test]
fn new_builder_then_window_then_build() {
    let ctx = context(1280, 720);
    assert_eq!(ctx.width(), 1280);
    assert_eq!(ctx.height(), 720);
    assert!(!ctx.overlay_enabled());
    assert!(!ctx.should_close());
}

#[test]
fn window_rejects_empty_title() {
    let r = FrameworkBuilder::new().window("", 1280, 720);
    assert!(matches!(r, Err(Error::InvalidConfiguration)));
}

#[test]
fn window_rejects_zero_width() {
    let r = FrameworkBuilder::new().window("title", 0, 720);
    assert!(matches!(r, Err(Error::InvalidConfiguration)));
}

#[test]
fn window_rejects_zero_height() {
    let r = FrameworkBuilder::new().window("title", 1280, 0);
    assert!(matches!(r, Err(Error::InvalidConfiguration)));
}

#[test]
fn window_rejects_everything_wrong_at_once() {
    let r = FrameworkBuilder::new().window("", 0, 0);
    assert!(matches!(r, Err(Error::InvalidConfiguration)));
}

#[test]
fn window_accepts_the_smallest_window() {
    let builder = FrameworkBuilder::new().window("t", 1, 1).expect("a valid window");
    let ctx = builder.build(Ok(())).expect("a context");
    assert_eq!((ctx.width(), ctx.height()), (1, 1));
}

#[test]
fn window_accepts_the_largest_window() {
    let builder = FrameworkBuilder::new().window("t", u32::MAX, u32::MAX).expect("a valid window");
    let ctx = builder.build(Ok(())).expect("a context");
    assert_eq!((ctx.width(), ctx.height()), (u32::MAX, u32::MAX));
}

#[test]
fn window_request_names_what_to_open() {
    let builder = FrameworkBuilder::new().window("Hello Triangle", 1280, 720).expect("a valid window");
    assert_eq!(
        builder.window_request(),
        WindowRequest {
            title: "Hello Triangle".to_string(),
            width: 1280,
            height: 720,
            context_version: (4, 1),
            core_profile: true,
            resizable: false,
            overlay: false,
        }
    );
}

#[test]
fn use_imgui_turns_the_overlay_on() {
    let builder = FrameworkBuilder::new().window("t", 640, 480).expect("a valid window").use_imgui();
    assert!(builder.window_request().overlay);
    let ctx = builder.build(Ok(())).expect("a context");
    assert!(ctx.overlay_enabled());
}

#[test]
fn use_imgui_twice_is_use_imgui_once() {
    let once = FrameworkBuilder::new().window("t", 640, 480).expect("a valid window").use_imgui();
    let twice =
        FrameworkBuilder::new().window("t", 640, 480).expect("a valid window").use_imgui().use_imgui();
    assert_eq!(once.window_request(), twice.window_request());
}

#[test]
fn build_hands_on_the_platform_refusal() {
    let builder = FrameworkBuilder::new().window("t", 640, 480).expect("a valid window");
    let r = builder.build(Err("no graphics driver".to_string()));
    assert!(matches!(r, Err(Error::PlatformInitError(ref d)) if d == "no graphics driver"));
}

#[test]
fn errors_give_up_their_diagnostic() {
    assert_eq!(Error::PlatformInitError("a".to_string()).into_diagnostic(), "a");
    assert_eq!(Error::ShaderCompileError("b".to_string()).into_diagnostic(), "b");
    assert_eq!(Error::ShaderLinkError("c".to_string()).into_diagnostic(), "c");
    assert_eq!(Error::ResourceLoadError("d".to_string()).into_diagnostic(), "d");
    assert_eq!(Error::FrameError("e".to_string()).into_diagnostic(), "e");
    assert_eq!(Error::InvalidConfiguration.into_diagnostic(), "a window needs a title and a size");
}

#[test]
fn aspect_of_1280_by_720() {
    let ctx = context(1280, 720);
    let (width, height) = ctx.aspect().expect("a height");
    let aspect = width as f32 / height as f32;
    assert!((aspect - 1.7777778).abs() < 1e-5);
}

#[test]
fn aspect_is_the_exact_fraction() {
    assert_eq!(context(1920, 1080).aspect(), Some((1920, 1080)));
    assert_eq!(context(1, 3).aspect(), Some((1, 3)));
    assert_eq!(context(u32::MAX, 1).aspect(), Some((u32::MAX, 1)));
}

#[test]
fn aspect_fails_without_height() {
    let mut ctx = context(800, 600);
    ctx.apply(&Event::FramebufferSize { width: 800, height: 0 });
    assert_eq!(ctx.height(), 0);
    assert_eq!(ctx.aspect(), None);
}

#[test]
fn set_viewport_covers_the_framebuffer() {
    let ctx = context(1280, 720);
    assert_eq!(ctx.set_viewport(), Viewport { x: 0, y: 0, width: 1280, height: 720 });
}

#[test]
fn change_view_stores_the_size() {
    let mut ctx = context(1280, 720);
    let viewport = ctx.change_view(300, 200);
    assert_eq!(viewport, Viewport { x: 0, y: 0, width: 300, height: 200 });
    assert_eq!((ctx.width(), ctx.height()), (300, 200));
    assert_eq!(ctx.set_viewport(), viewport);
}

#[test]
fn resize_event_is_stored_before_the_viewport_is_read() {
    let mut ctx = context(1280, 720);
    ctx.apply(&Event::FramebufferSize { width: 1024, height: 768 });
    assert_eq!(ctx.set_viewport(), Viewport { x: 0, y: 0, width: 1024, height: 768 });
    assert_eq!(ctx.aspect(), Some((1024, 768)));
}

#[test]
fn apply_names_the_hook_for_the_event() {
    let mut ctx = context(1280, 720);
    assert_eq!(
        ctx.apply(&Event::FramebufferSize { width: 3, height: 4 }),
        Hook::Resized { width: 3, height: 4 }
    );
    assert_eq!(ctx.apply(&Event::Close), Hook::Event(Event::Close));
    assert_eq!(ctx.apply(&Event::Other), Hook::Event(Event::Other));
    let key = Event::Key { key: Key::Other(32), action: KeyAction::Repeat };
    assert_eq!(ctx.apply(&key), Hook::Event(key));
}

#[test]
fn resize_event_is_dispatched_to_the_resized_hook() {
    let mut ctx = context(1280, 720);
    let mut app = Listener::new(&ctx);
    let (refresh, outcome) = ctx.dispatch(&mut app, &Event::FramebufferSize { width: 100, height: 50 });
    assert_eq!(outcome, Ok(()));
    assert_eq!(refresh, Some(Viewport { x: 0, y: 0, width: 100, height: 50 }));
    assert_eq!(app.resized, vec![(100, 50, 100, 50)]);
    assert!(app.events.is_empty());
    assert_eq!((ctx.width(), ctx.height()), (100, 50));
}

#[test]
fn resized_hook_runs_once_per_resize_event() {
    let mut ctx = context(1280, 720);
    let mut app = Listener::new(&ctx);
    let events = [
        Event::FramebufferSize { width: 100, height: 50 },
        Event::Other,
        Event::FramebufferSize { width: 100, height: 50 },
        Event::FramebufferSize { width: 7, height: 9 },
    ];
    for event in &events {
        assert_eq!(ctx.dispatch(&mut app, event).1, Ok(()));
    }
    assert_eq!(app.resized, vec![(100, 50, 100, 50), (100, 50, 100, 50), (7, 9, 7, 9)]);
    assert_eq!(app.events, vec![(Event::Other, false)]);
    assert_eq!((ctx.width(), ctx.height()), (7, 9));
}

#[test]
fn other_event_is_dispatched_to_the_event_hook() {
    let mut ctx = context(1280, 720);
    let mut app = Listener::new(&ctx);
    let (refresh, outcome) = ctx.dispatch(&mut app, &Event::Other);
    assert_eq!(outcome, Ok(()));
    assert_eq!(refresh, None);
    assert_eq!(app.events, vec![(Event::Other, false)]);
    assert!(app.resized.is_empty());
    assert_eq!((ctx.width(), ctx.height(), ctx.should_close()), (1280, 720, false));
}

#[test]
fn escape_pressed_asks_to_close() {
    let mut ctx = context(1280, 720);
    let mut app = Listener::new(&ctx);
    let escape = Event::Key { key: Key::Escape, action: KeyAction::Press };
    let (refresh, outcome) = ctx.dispatch(&mut app, &escape);
    assert_eq!(outcome, Ok(()));
    assert_eq!(refresh, None);
    assert!(ctx.should_close());
    assert_eq!(app.events, vec![(escape, true)]);
}

#[test]
fn close_request_asks_to_close() {
    let mut ctx = context(1280, 720);
    ctx.apply(&Event::Close);
    assert!(ctx.should_close());
}

#[test]
fn other_keys_do_not_ask_to_close() {
    let mut ctx = context(1280, 720);
    let mut app = Listener::new(&ctx);
    let events = [
        Event::Key { key: Key::Escape, action: KeyAction::Release },
        Event::Key { key: Key::Escape, action: KeyAction::Repeat },
        Event::Key { key: Key::Other(65), action: KeyAction::Press },
        Event::Other,
    ];
    for event in &events {
        assert_eq!(ctx.dispatch(&mut app, event).1, Ok(()));
    }
    assert!(!ctx.should_close());
    assert_eq!(app.events.len(), 4);
}

#[test]
fn close_flag_stays_up() {
    let mut ctx = context(1280, 720);
    ctx.apply(&Event::Close);
    ctx.apply(&Event::Other);
    ctx.apply(&Event::FramebufferSize { width: 1, height: 1 });
    ctx.apply(&Event::Key { key: Key::Escape, action: KeyAction::Release });
    assert!(ctx.should_close());
}

#[test]
fn quits_tells_quit_requests_apart() {
    assert!(Event::Close.quits());
    assert!(Event::Key { key: Key::Escape, action: KeyAction::Press }.quits());
    assert!(!Event::Key { key: Key::Escape, action: KeyAction::Release }.quits());
    assert!(!Event::Key { key: Key::Other(256), action: KeyAction::Press }.quits());
    assert!(!Event::FramebufferSize { width: 1, height: 1 }.quits());
    assert!(!Event::Other.quits());
}

#[test]
fn failing_hook_is_handed_back_with_the_event_taken_in() {
    let mut ctx = context(1280, 720);
    let mut app = Listener::new(&ctx);
    app.fail_on_resize = Some(1);
    app.fail_on_event = Some(1);
    let (refresh, outcome) = ctx.dispatch(&mut app, &Event::FramebufferSize { width: 30, height: 40 });
    assert_eq!(outcome, Err("resize 1 refused".to_string()));
    assert_eq!(refresh, Some(Viewport { x: 0, y: 0, width: 30, height: 40 }));
    assert_eq!((ctx.width(), ctx.height()), (30, 40));
    let (refresh, outcome) = ctx.dispatch(&mut app, &Event::Close);
    assert_eq!(outcome, Err("event 1 refused".to_string()));
    assert_eq!(refresh, None);
    assert!(ctx.should_close());
}

#[test]
fn resize_stores_then_tells() {
    let mut ctx = context(1280, 720);
    let mut app = Listener::new(&ctx);
    let (viewport, outcome) = ctx.resize(&mut app, 640, 360);
    assert_eq!(outcome, Ok(()));
    assert_eq!(viewport, Viewport { x: 0, y: 0, width: 640, height: 360 });
    assert_eq!(app.resized, vec![(640, 360, 640, 360)]);
}

#[test]
fn resize_hands_on_the_hook_failure() {
    let mut ctx = context(1280, 720);
    let mut app = Listener::new(&ctx);
    app.fail_on_resize = Some(1);
    let (viewport, outcome) = ctx.resize(&mut app, 640, 360);
    assert_eq!(outcome, Err("resize 1 refused".to_string()));
    assert_eq!(viewport, Viewport { x: 0, y: 0, width: 640, height: 360 });
    assert_eq!((ctx.width(), ctx.height()), (640, 360));
}

#[test]
fn hooks_do_nothing_unless_overridden() {
    let mut ctx = context(1280, 720);
    let mut app = Plain::new(&ctx);
    assert_eq!(app.update(&ctx), Ok(()));
    assert_eq!(app.render(&ctx), Ok(()));
    assert_eq!(app.resized(&ctx, 1280, 720), Ok(()));
    assert_eq!(app.event(&ctx, &Event::Close), Ok(()));
    assert_eq!(app.destroy(&ctx), Ok(()));
    let (refresh, outcome) = ctx.dispatch(&mut app, &Event::FramebufferSize { width: 2, height: 3 });
    assert_eq!(outcome, Ok(()));
    assert_eq!(refresh, Some(Viewport { x: 0, y: 0, width: 2, height: 3 }));
    assert_eq!(ctx.dispatch(&mut app, &Event::Other), (None, Ok(())));
}

#[test]
fn invoke_calls_the_hook_that_is_named() {
    let ctx = context(1280, 720);
    let mut app = Listener::new(&ctx);
    app.fail_on_event = Some(2);
    assert_eq!(invoke(Hook::Event(Event::Other), &mut app, &ctx), Ok(()));
    assert_eq!(invoke(Hook::Event(Event::Close), &mut app, &ctx), Err("event 2 refused".to_string()));
    assert_eq!(invoke(Hook::Resized { width: 1280, height: 720 }, &mut app, &ctx), Ok(()));
    assert_eq!(invoke(Hook::Update, &mut app, &ctx), Ok(()));
    assert_eq!(invoke(Hook::Render, &mut app, &ctx), Ok(()));
    assert_eq!(invoke(Hook::Destroy, &mut app, &ctx), Ok(()));
    assert_eq!(app.events, vec![(Event::Other, false), (Event::Close, false)]);
    assert_eq!(app.resized, vec![(1280, 720, 1280, 720)]);
}
