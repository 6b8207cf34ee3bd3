//! Filter shapes of the biquad (2nd-order IIR) filter.
//!
//! The coefficient formulas themselves run in the floating-point signal
//! path; this module holds the closed set of filter shapes it selects from.

use vstd::prelude::*;

verus! {

/// Filter type of a biquad filter.
#[derive(Debug, Clone, Copy, PartialEq, Eq, Structural)]
pub enum FilterType {
    Lowpass,
    Highpass,
    Bandpass,
    Notch,
    Peaking,
}

} // verus!
