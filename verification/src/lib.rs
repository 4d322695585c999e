//! Real-to-complex FFT and complex-to-real inverse FFT: the integer side of the transforms.
//!
//! The library decides everything about a transform that does not involve a sample value:
//! which lengths a planned transform accepts and what it answers when a buffer has the wrong
//! length, how much scratch space it needs, how many twiddle factors it uses, which spectrum
//! bins are combined with which in the even-length post- and pre-processing, how a half
//! spectrum is extended to a full Hermitian one, and how planned transforms are cached by length.

use vstd::prelude::*;

pub mod error;
pub mod decimal;
pub mod zip;
pub mod layout;
pub mod pairing;
pub mod cache;

pub use error::FftError;
pub use zip::zip3;
pub use layout::{Layout, Parity, inner_fft_len, spectrum_len, twiddle_indices};
pub use pairing::{BinPlan, bin_plan, hermitian_sources};
pub use cache::PlanCache;

verus! {

} // verus!
