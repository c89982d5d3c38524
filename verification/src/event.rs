//! The platform events that the framework reacts to.

use vstd::prelude::*;

verus! {

/// A key of the keyboard, as far as the framework tells keys apart.
#[derive(Clone, Copy, Debug, PartialEq, Eq)]
pub enum Key {
    /// The escape key, which asks the run loop to end.
    Escape,
    /// Any other key, with the platform's code for it.
    Other(i32),
}

/// What happened to a key.
#[derive(Clone, Copy, Debug, PartialEq, Eq)]
pub enum KeyAction {
    Press,
    Release,
    Repeat,
}

/// One entry of the platform's event queue.
#[derive(Clone, Copy, Debug, PartialEq, Eq)]
pub enum Event {
    /// The user or the system asked the window to close.
    Close,
    /// The framebuffer now has this size, in pixels.
    FramebufferSize { width: u32, height: u32 },
    /// A key changed state.
    Key { key: Key, action: KeyAction },
    /// An event the framework itself has no use for; applications still see it.
    Other,
}

impl Event {
    /// Whether this event asks the run loop to end: a close request, or escape pressed.
    pub open spec fn is_quit(self) -> bool {
        self is Close || self == (Event::Key { key: Key::Escape, action: KeyAction::Press })
    }

    /// Whether this event reports a new framebuffer size.
    pub open spec fn is_resize(self) -> bool {
        self is FramebufferSize
    }

    /// Tells whether this event asks the run loop to end.
    pub fn quits(&self) -> (quit: bool)
        ensures
            quit == self.is_quit(),
    {
        match self {
            Event::Close => true,
            Event::Key { key: Key::Escape, action: KeyAction::Press } => true,
            _ => false,
        }
    }
}

} // verus!
