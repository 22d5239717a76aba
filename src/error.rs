use vstd::prelude::*;

verus! {

/// Errors and completion signals of the amplitude generators.
#[derive(Debug, Clone, Copy, PartialEq, Eq, Structural)]
pub enum Error {
    /// A sample rate is not positive.
    SampleRateInvalid,
    /// An amplitude, an overtone amplitude or their sum is out of range.
    AmplitudeInvalid,
    /// A half-life or decay rate is not positive.
    AmplitudeRateInvalid,
    /// More overtone amplitudes were given than the generator holds.
    OvertoneCountInvalid,
    /// The tempo and sample buffers differ in length.
    BufferSize,
    /// Only the given number of leading samples were processed: the tracked
    /// duration ended there.
    ItemsCompleted(usize),
    /// The progress cursor has reached its end.
    ProgressCompleted,
    /// The progress cursor is of the other kind (time against tempo).
    ProgressInvalid,
}

/// The result type of the generators.
pub type SoundResult<T> = Result<T, Error>;

} // verus!
