//! Decoding, filtering and playback logic for animated weather-radar sweeps.
pub mod discovery;
pub mod instance;
pub mod radar;
pub mod scan;
