//! Errors of the rendering core.

use vstd::prelude::*;

verus! {

/// Why a render cannot start.
#[derive(Clone, Copy, Debug, PartialEq, Eq, Structural)]
pub enum RenderError {
    /// The generator name is not one of the accepted aliases.
    UnrecognizedSound,
    /// The window name is not one of the accepted aliases.
    UnrecognizedWindow,
    /// The output format has no sample rate, no channel, or a bit depth the
    /// sink cannot write.
    UnsupportedFormat,
}

impl RenderError {
    /// A message for the user.
    pub fn message(&self) -> (r: &'static str)
        ensures
            r@ == (match self {
                RenderError::UnrecognizedSound => "Unrecognized sound type."@,
                RenderError::UnrecognizedWindow => "Unrecognized window type."@,
                RenderError::UnsupportedFormat => "Unsupported output format."@,
            }),
    {
        match self {
            RenderError::UnrecognizedSound => "Unrecognized sound type.",
            RenderError::UnrecognizedWindow => "Unrecognized window type.",
            RenderError::UnsupportedFormat => "Unsupported output format.",
        }
    }
}

} // verus!
