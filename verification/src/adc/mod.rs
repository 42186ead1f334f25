//! ADC conversion resolutions.
pub mod resolution;
pub mod resolution_v4;
