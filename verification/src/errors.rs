use vstd::prelude::*;

verus! {

/// The ways a conversion can fail. The taxonomy is flat: every failure aborts
/// the whole conversion, and none is recoverable within one invocation.
#[derive(Clone, Copy, Debug, PartialEq, Eq, Structural)]
pub enum ConversionError {
    /// The input bytes are not a well-formed SVG document.
    ParseError,
    /// The target dimensions are zero or too large for a pixel buffer.
    BufferAllocationError,
    /// The rasterizer reported a fault.
    RenderError,
    /// The PNG encoder reported a fault.
    EncodeError,
}

impl ConversionError {
    /// A human-readable, single-line description of the failure.
    pub fn message(&self) -> (m: &'static str)
        ensures
            *self == ConversionError::ParseError ==> m@ == "the input is not a well-formed SVG document"@,
            *self == ConversionError::BufferAllocationError ==> m@ == "the target dimensions are zero or unallocatable"@,
            *self == ConversionError::RenderError ==> m@ == "the rasterizer failed"@,
            *self == ConversionError::EncodeError ==> m@ == "the PNG encoder failed"@,
    {
        match self {
            ConversionError::ParseError => "the input is not a well-formed SVG document",
            ConversionError::BufferAllocationError => "the target dimensions are zero or unallocatable",
            ConversionError::RenderError => "the rasterizer failed",
            ConversionError::EncodeError => "the PNG encoder failed",
        }
    }
}

} // verus!
