//! Signal synthesis and rendering pipeline for a scrolling, ECG-styled trace
//! of processor load, computed entirely in fixed-point arithmetic.

pub mod control;
pub mod frame;
pub mod raster;
pub mod signal;
pub mod text;
pub mod units;
pub mod window;
