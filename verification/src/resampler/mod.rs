//! Buffering of the audio samples between the emulator and the
//! frontend

pub mod fifo;
