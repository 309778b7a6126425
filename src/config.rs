//! Session configuration and the device's timing and size limits.
use vstd::prelude::*;

verus! {

/// Drain delay of one resynchronization attempt, in milliseconds.
pub const CARD_RESET_DRAIN_DELAY_MS: u32 = 500;

/// Pause before reading again after an empty read, in milliseconds.
pub const IDLE_READ_DELAY_MS: u32 = 10;

/// Size of the scratch region that one read fills at most.
pub const READ_CHUNK_MAX: usize = 256;

/// Session configuration. All durations are in milliseconds, so none is
/// negative.
#[derive(Debug, Clone, Copy, PartialEq, Eq, Structural)]
pub struct Config {
    /// Response timeout (ms).
    pub response_timeout: u32,
    /// Transaction retry count.
    pub transaction_retry: usize,
    /// Delay between chunks when transmitting (ms).
    pub chunk_delay: u32,
    /// Delay between segments when transmitting (ms).
    pub segment_delay: u32,
}

impl Default for Config {
    fn default() -> (r: Config)
        ensures
            r.response_timeout == 5000,
            r.transaction_retry == 5,
            r.chunk_delay == 20,
            r.segment_delay == 250,
    {
        Config { response_timeout: 5000, transaction_retry: 5, chunk_delay: 20, segment_delay: 250 }
    }
}

} // verus!
