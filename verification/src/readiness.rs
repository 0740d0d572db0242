//! What a probe of standard input can find.

use vstd::prelude::*;

verus! {

/// Whether standard input has data to hand to a command.
#[derive(Clone, Copy, Debug, PartialEq, Eq, Structural)]
pub enum ReadinessOutcome {
    /// At least one byte can be read, and the read position is where it was.
    Ready,
    /// The stream is at its end: nothing will ever be read from it.
    Empty,
    /// The stream can neither be duplicated from nor repositioned, so no test
    /// exists that would leave it untouched.
    Undeterminable,
}

/// Why a probe ended without an outcome.
#[derive(Clone, Copy, Debug, PartialEq, Eq, Structural)]
pub enum ProbeError {
    /// The scratch pipe could not be created.
    ScratchPipe,
    /// The duplication ran out of memory.
    Exhausted,
    /// The stream can be repositioned, but reading from it failed.
    Read,
    /// A byte was read and the seek that should have put it back failed: the
    /// stream is one byte further than it was found.
    Restore,
}

} // verus!
