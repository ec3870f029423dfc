//! Procedural sound effects as pull-driven streams of phase-stamped samples.
//!
//! A generator hands out one [`Sample`] per pull, each stamped with the phase
//! it was produced at: the number of samples that the stream has produced
//! since its origin. Filters own the stream they draw from and transform what
//! it yields; wave shapers turn frequencies into amplitudes. A chain is built
//! by wrapping, and pulled from its outer end.
//!
//! Every stage is a [`Stream`]: it can be pulled, repositioned and
//! duplicated. What each of the three does is stated as a relation between
//! the stream before and the stream after, and proved of the code. The laws
//! that follow from these relations, such as that phases never decrease and
//! that a pull after a move to the phase `p` yields the phase `p + 1`, are
//! proved beside the stage they speak of.
//!
//! The library counts: it decides when a sample is produced, which phase it
//! carries and when a stream ends, and it keeps every window of time as a
//! bound on the phase. It is generic in the payload of a sample, combines
//! payloads with the operators of their own type only, and takes whatever
//! else has to be computed from a payload or a phase as a [`Formula`] from the
//! owner of the stream.

pub mod filter;
pub mod generator;
pub mod sample;
pub mod seek;
pub mod stream;
pub mod wave;

pub use crate::generator::{ConstantFrequencyGenerator, WhiteNoiseGenerator};
pub use crate::sample::Sample;
pub use crate::seek::{SeekError, SeekFrom};
pub use crate::stream::{Formula, Stream};
