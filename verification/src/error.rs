//! The errors the library reports, and the result aliases built on them.

use vstd::prelude::*;

verus! {

/// Result of an operation that can fail with a [`TubError`].
pub type TubResult<T> = Result<T, TubError>;

/// Result of a rendering-context creation attempt.
pub type GlCreationResult<T> = Result<T, GlCreationError>;

/// An error raised by window creation or a window query.
#[derive(Debug, Clone)]
pub enum TubError {
    /// The platform refused the operation; carries the platform's own message.
    OsError(String),
    /// A requested icon asset could not be loaded at the given resolution.
    IconLoadError(u16),
}

impl TubError {
    /// A short description of the error: the platform's own message for an
    /// OS error, a fixed phrase otherwise.
    pub fn description(&self) -> (r: &str)
        ensures
            self matches TubError::OsError(s) ==> r@ == s@,
            self is IconLoadError ==> r@ == "Icon load error"@,
    {
        match self {
            TubError::OsError(s) => s.as_str(),
            TubError::IconLoadError(_) => "Icon load error",
        }
    }
}

/// An error raised while negotiating a rendering context; surfaced unchanged
/// through the window APIs that trigger context creation.
#[derive(Debug, Clone)]
pub enum GlCreationError {
    /// The platform refused a call; carries the platform's message and a reason.
    OsError(String, String),
    /// No pixel format with fractional color intensities was available.
    FloatingBufferError,
    /// No SRGB pixel format was available.
    SRGBBufferError,
    /// No multisampled pixel format was available.
    MSAABufferError,
    /// The requested pixel format could not be described to the hardware;
    /// carries the platform's message.
    IndescribableFormatError(String),
    /// The context could not be created with extended attributes.
    ExtendedCreationError,
    /// The functions for extended context creation could not be loaded.
    FunctionLoadError,
}

impl GlCreationError {
    /// A short description of the error: the reason given with an OS error,
    /// a fixed phrase otherwise.
    pub fn description(&self) -> (r: &str)
        ensures
            self matches GlCreationError::OsError(_, s) ==> r@ == s@,
            self is FloatingBufferError ==> r@
                == "Could not create floating-point color buffer"@,
            self is SRGBBufferError ==> r@ == "Could not create SRGB pixel format"@,
            self is MSAABufferError ==> r@ == "Could not create multisampled pixel format"@,
            self is IndescribableFormatError ==> r@
                == "Indescribable pixel format; see documentation for more details"@,
            self is ExtendedCreationError ==> r@
                == "Could not create OpenGl context with extended attributes"@,
            self is FunctionLoadError ==> r@
                == "Could not load functions for OpenGl context creation with attributes"@,
    {
        match self {
            GlCreationError::OsError(_, s) => s.as_str(),
            GlCreationError::FloatingBufferError => {
                "Could not create floating-point color buffer"
            },
            GlCreationError::SRGBBufferError => "Could not create SRGB pixel format",
            GlCreationError::MSAABufferError => "Could not create multisampled pixel format",
            GlCreationError::IndescribableFormatError(_) => {
                "Indescribable pixel format; see documentation for more details"
            },
            GlCreationError::ExtendedCreationError => {
                "Could not create OpenGl context with extended attributes"
            },
            GlCreationError::FunctionLoadError => {
                "Could not load functions for OpenGl context creation with attributes"
            },
        }
    }
}

} // verus!
