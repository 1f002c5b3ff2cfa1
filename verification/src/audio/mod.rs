//! Speech input: its errors. Capture, resampling and transcription work on
//! floating-point samples and live with the program, not here.

pub mod error;
