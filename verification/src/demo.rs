//! The demonstrations that the program offers, and how each is configured.

use vstd::prelude::*;

use crate::error::Error;
use crate::framework::{BuilderView, FrameworkBuilder, Fully};

verus! {

/// The width of every demonstration's window, in pixels.
pub const WINDOW_WIDTH: u32 = 1280;

/// The height of every demonstration's window, in pixels.
pub const WINDOW_HEIGHT: u32 = 720;

/// A demonstration.
#[derive(Clone, Copy, Debug, PartialEq, Eq)]
pub enum Demo {
    Triangle,
    Minimal,
    TextureMapping,
    ImGui,
}

impl Demo {
    /// The demonstration that goes by `name` on the command line.
    pub open spec fn named(name: Seq<char>) -> Option<Demo> {
        if name == "triangle"@ {
            Some(Demo::Triangle)
        } else if name == "minimal"@ {
            Some(Demo::Minimal)
        } else if name == "texture_mapping"@ {
            Some(Demo::TextureMapping)
        } else if name == "imgui"@ {
            Some(Demo::ImGui)
        } else {
            None
        }
    }

    /// The title of the demonstration's window.
    pub open spec fn spec_title(self) -> Seq<char> {
        match self {
            Demo::Triangle => "Hello Triangle"@,
            Demo::Minimal => "Minimal Application"@,
            Demo::TextureMapping => "Texture Mapping"@,
            Demo::ImGui => "ImGui Demo App"@,
        }
    }

    /// Whether the demonstration draws an overlay: only the overlay's own does.
    pub open spec fn spec_uses_overlay(self) -> bool {
        self is ImGui
    }

    /// Finds the demonstration that goes by `name`; none for a name that is
    /// not offered.
    pub fn select(name: &str) -> (demo: Option<Demo>)
        ensures
            demo == Self::named(name@),
    {
        let name = name.to_owned();
        if name == "triangle".to_owned() {
            Some(Demo::Triangle)
        } else if name == "minimal".to_owned() {
            Some(Demo::Minimal)
        } else if name == "texture_mapping".to_owned() {
            Some(Demo::TextureMapping)
        } else if name == "imgui".to_owned() {
            Some(Demo::ImGui)
        } else {
            None
        }
    }

    /// The title of the demonstration's window.
    pub fn title(self) -> (title: &'static str)
        ensures
            title@ == self.spec_title(),
    {
        match self {
            Demo::Triangle => "Hello Triangle",
            Demo::Minimal => "Minimal Application",
            Demo::TextureMapping => "Texture Mapping",
            Demo::ImGui => "ImGui Demo App",
        }
    }

    /// Whether the demonstration draws an overlay.
    #[verifier::when_used_as_spec(spec_uses_overlay)]
    pub fn uses_overlay(self) -> (overlay: bool)
        ensures
            overlay == self.spec_uses_overlay(),
    {
        match self {
            Demo::ImGui => true,
            _ => false,
        }
    }

    /// The configuration of the demonstration: its title on a window of the
    /// common size, with the overlay where the demonstration draws one. Every
    /// demonstration has a valid configuration.
    pub fn configure(self) -> (r: Result<FrameworkBuilder<Fully>, Error>)
        ensures
            r matches Ok(builder) && builder@ == (BuilderView {
                title: self.spec_title(),
                width: WINDOW_WIDTH,
                height: WINDOW_HEIGHT,
                use_imgui: self.spec_uses_overlay(),
            }),
    {
        proof {
            reveal_strlit("Hello Triangle");
            reveal_strlit("Minimal Application");
            reveal_strlit("Texture Mapping");
            reveal_strlit("ImGui Demo App");
        }
        let window = FrameworkBuilder::new().window(self.title(), WINDOW_WIDTH, WINDOW_HEIGHT);
        match window {
            Ok(builder) => if self.uses_overlay() {
                Ok(builder.use_imgui())
            } else {
                Ok(builder)
            },
            Err(error) => Err(error),
        }
    }
}

} // verus!
