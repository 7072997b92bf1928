//! Core of a terminal music player: a real-time audio spectrum pipeline
//! (sample ring, Hann window, band mapping, perceptual normalization and
//! temporal smoothing, with the forward FFT supplied by the embedding), and
//! the track table's key handler over a plain navigation model, recording
//! network requests for the embedding to perform.

pub mod analyzer;
pub mod bands;
pub mod keys;
pub mod model;
pub mod spectrum;
pub mod track_table;
pub mod window;
