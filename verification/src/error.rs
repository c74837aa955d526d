//! Errors that end the setup of a session.

use vstd::prelude::*;

verus! {

/// A fatal misconfiguration found while the session is set up.
#[derive(Clone, Copy, Debug, PartialEq, Eq, Structural)]
pub enum SetupError {
    /// The shader artifact has no entry point of the name given for the
    /// producing pass of feedback channel `channel`.
    UnknownChannelProducer { channel: usize },
    /// The shader artifact has no entry point of the name given for image
    /// pass number `pass`.
    UnknownImagePass { pass: usize },
    /// The surface reports a pixel format for which no colour path is defined.
    UnsupportedSurfaceFormat,
    /// The byte size of the accumulation buffer at position `accumulator`
    /// does not fit in 64 bits.
    ResourceTooLarge { accumulator: usize },
    /// The binding layout would need a slot index beyond 32 bits.
    TooManyBindings,
    /// The sequencer was asked for zero inner steps per frame.
    ZeroRepeat,
    /// The resource set, the pipeline registry and the binding sets were
    /// not all made for the same numbers of feedback channels and
    /// accumulation buffers.
    ShapeMismatch,
    /// A frame would have more commands than a sequence can hold.
    FrameTooLong,
}

} // verus!
