//! The failures that the framework reports.

use vstd::prelude::*;

verus! {

/// What went wrong, with the diagnostic text where there is one.
#[derive(Debug, PartialEq, Eq)]
pub enum Error {
    /// A builder was given an empty title or a zero dimension.
    InvalidConfiguration,
    /// The platform refused to create the window or the graphics context.
    PlatformInitError(String),
    /// A shader stage did not compile; the text is the compiler's log.
    ShaderCompileError(String),
    /// A shader program did not link; the text is the linker's log.
    ShaderLinkError(String),
    /// An asset was missing or could not be used.
    ResourceLoadError(String),
    /// An application hook failed during the run loop.
    FrameError(String),
}

impl Error {
    /// The diagnostic text of the error: the text that it carries, or a fixed
    /// sentence for a refused configuration, which carries none.
    pub open spec fn diagnostic(self) -> Seq<char> {
        match self {
            Error::InvalidConfiguration => "a window needs a title and a size"@,
            Error::PlatformInitError(text) => text@,
            Error::ShaderCompileError(text) => text@,
            Error::ShaderLinkError(text) => text@,
            Error::ResourceLoadError(text) => text@,
            Error::FrameError(text) => text@,
        }
    }

    /// Gives up the error for its diagnostic text.
    pub fn into_diagnostic(self) -> (text: String)
        ensures
            text@ == self.diagnostic(),
    {
        match self {
            Error::InvalidConfiguration => "a window needs a title and a size".to_owned(),
            Error::PlatformInitError(text) => text,
            Error::ShaderCompileError(text) => text,
            Error::ShaderLinkError(text) => text,
            Error::ResourceLoadError(text) => text,
            Error::FrameError(text) => text,
        }
    }
}

} // verus!
