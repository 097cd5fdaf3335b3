//! Control core for a mechanical telephone-style ringer and handset.
//!
//! The library holds the logic of the ringer: the timed pulse sequence that
//! drives the ringer coils, the FIFO service that serializes ring commands
//! from several producers, the debounce state machine that filters noisy
//! switch transitions, the scheduler arithmetic that finds the next hourly
//! chime inside a configured daytime window, and the hook-switch state
//! machine that triggers a spoken greeting when the handset is lifted.
//! Pin access, threads, sleeping and audio playback live outside the
//! library and drive it with plain values.

pub mod chime;
pub mod clock;
pub mod debounce;
pub mod hook;
pub mod pulse;
pub mod service;
pub mod signal;
