//! Filters: streams that own the stream they draw from.

pub mod arpeggiation;
pub mod envelope;
pub mod flanger;
pub mod highpass;
pub mod lowpass;
pub mod min_cutoff;
pub mod modulation;
pub mod retrigger;

pub use crate::filter::arpeggiation::Arpeggiation;
pub use crate::filter::envelope::{Envelope, EnvelopeStage};
pub use crate::filter::flanger::Flanger;
pub use crate::filter::highpass::Highpass;
pub use crate::filter::lowpass::Lowpass;
pub use crate::filter::min_cutoff::MinCutoff;
pub use crate::filter::modulation::{FrequencySlide, Modulation, Vibrato};
pub use crate::filter::retrigger::{Rate, Retrigger};
