use vstd::prelude::*;

verus! {

/// Where to move the cursor of a stream.
#[derive(Clone, Copy, Debug, PartialEq, Eq, Structural)]
pub enum SeekFrom {
    /// To this phase.
    Start(u64),
    /// Relative to the end of the stream. A stream has no known length, so
    /// no stream supports this.
    End(i64),
    /// By this many samples from the current phase, forwards or backwards.
    Current(i64),
}

/// Why a cursor could not be moved.
#[derive(Clone, Copy, Debug, PartialEq, Eq, Structural)]
pub enum SeekError {
    /// The request was relative to the end of the stream.
    InvalidInput,
}

impl SeekFrom {
    /// The phase that a cursor standing at `phase` is moved to, or `None`
    /// where the request is relative to the end. A relative move wraps
    /// around the range of `u64`.
    pub open spec fn target(self, phase: u64) -> Option<u64> {
        match self {
            SeekFrom::Start(p) => Some(p),
            SeekFrom::Current(d) => Some(((phase + d) % 0x1_0000_0000_0000_0000) as u64),
            SeekFrom::End(_) => None,
        }
    }

    /// Computes [`SeekFrom::target`]; the request relative to the end is an
    /// error.
    pub fn resolve(self, phase: u64) -> (r: Result<u64, SeekError>)
        ensures
            self.target(phase) matches Some(p) ==> r == Ok::<u64, SeekError>(p),
            self.target(phase) is None ==> r == Err::<u64, SeekError>(SeekError::InvalidInput),
    {
        match self {
            SeekFrom::Start(p) => Ok(p),
            SeekFrom::Current(d) => Ok(phase.wrapping_add_signed(d)),
            SeekFrom::End(_) => Err(SeekError::InvalidInput),
        }
    }
}

} // verus!
