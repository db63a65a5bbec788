//! Core of a real-time audio spectrum visualizer: windowing of the sample
//! stream, mapping of a spectrum onto display bars, and the evolution of the
//! bars over time.
//!
//! All quantities are fixed-point integers. Levels are thousandths of a
//! decibel, heights are thousandths of a display unit.

pub mod bars;
pub mod evolution;
pub mod scale;
pub mod spectrum;
pub mod tap;
pub mod visualizer;
