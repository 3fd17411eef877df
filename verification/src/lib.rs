//! Lighting of map sectors, in exact integer arithmetic.
//!
//! A sector's raw light value is quantized into one of 32 brightness bands,
//! and sectors of an animated type additionally get a description of their
//! light effect: the band the light alternates with, the waveform, its
//! timing and a phase offset derived from the sector's identifier.
//!
//! Every quantity is an integer numerator over a fixed denominator, so that
//! all results are exact and reproducible:
//!
//! | quantity            | unit             |
//! |---------------------|------------------|
//! | brightness          | 1 / `BAND_MAX`   |
//! | speed and duration  | 1 / `RATE_SCALE` |
//! | phase offset (sync) | 1 / `SYNC_SCALE` |

pub mod band;
pub mod light;
pub mod phase;
