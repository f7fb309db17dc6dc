use vstd::prelude::*;

verus! {

/// A single terminal error value: the first structural fault encountered
/// terminates the whole decode or encode with no partial result.
#[derive(Clone, Copy, Debug, PartialEq, Eq, Structural)]
pub enum Error {
    /// The leading bytes do not match an accepted version literal.
    InvalidSignature,
    /// A read would exceed the buffer bounds.
    UnexpectedEndOfStream,
    /// A decoded index buffer's length does not match the frame descriptor's
    /// width times height.
    CorruptFrameData,
    /// Color resolution was requested but neither a local nor a global
    /// palette table is available.
    MissingPaletteTable,
    /// An index byte has no corresponding palette table entry.
    PaletteIndexOutOfRange,
    /// Re-encoding declines any document containing an interlaced frame.
    UnsupportedInterlacedFrame,
}

} // verus!
