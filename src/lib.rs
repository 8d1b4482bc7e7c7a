//! Tapering windows and a fitted cutoff frequency for windowed-sinc
//! interpolation filters, computed in exact integer arithmetic.

pub mod cutoff;
pub mod windows;

pub use cutoff::{calculate_cutoff, Cutoff, MAX_CUTOFF_POINTS};
pub use windows::{
    blackman, blackman_harris, hann, make_window, WindowFunction, WindowShape, COS_ONE, UNIT,
};
