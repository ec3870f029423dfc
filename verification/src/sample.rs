use vstd::prelude::*;

verus! {

/// A payload together with the phase at which it was produced.
///
/// The phase counts the samples that a stream has produced since its origin;
/// the time elapsed in seconds is the phase divided by the sample rate.
#[derive(Debug, PartialEq)]
pub struct Sample<T> {
    pub data: T,
    pub phase: u64,
}

impl<T: Copy> Clone for Sample<T> {
    fn clone(&self) -> (copy: Self)
        ensures
            copy == *self,
    {
        Sample { data: self.data, phase: self.phase }
    }
}

impl<T: Copy> Copy for Sample<T> {
}

} // verus!
