//! Recognising the end of a response: a carriage return and a line feed have
//! both arrived, anywhere in what was read since the receive began.
use vstd::prelude::*;

verus! {

/// What the receive loop does after a read.
#[derive(Debug, Clone, Copy, PartialEq, Eq, Structural)]
pub enum RxNext {
    /// The read delivered nothing: pause briefly, then read again.
    Idle,
    /// Read again.
    More,
    /// The response is complete.
    Complete,
}

/// The flags the receive loop keeps across all its reads.
#[derive(Debug, Clone, Copy, PartialEq, Eq, Structural)]
pub struct ReceiveState {
    pub got_newline: bool,
    pub got_carriage: bool,
}

/// The flags after one more chunk.
pub open spec fn after_chunk(st: ReceiveState, chunk: Seq<u8>) -> ReceiveState {
    ReceiveState {
        got_newline: st.got_newline || chunk.contains(10u8),
        got_carriage: st.got_carriage || chunk.contains(13u8),
    }
}

/// What follows a non-empty read that left the flags `st`.
pub open spec fn rx_next(st: ReceiveState) -> RxNext {
    if st.got_newline && st.got_carriage {
        RxNext::Complete
    } else {
        RxNext::More
    }
}

impl ReceiveState {
    /// No flag set.
    pub fn new() -> (r: ReceiveState)
        ensures
            !r.got_newline,
            !r.got_carriage,
    {
        ReceiveState { got_newline: false, got_carriage: false }
    }
}

/// Whether `chunk` holds the byte `b`.
pub fn chunk_contains(chunk: &[u8], b: u8) -> (r: bool)
    ensures
        r == chunk@.contains(b),
{
    let mut i: usize = 0;
    while i < chunk.len()
        invariant
            i <= chunk@.len(),
            forall|j: int| 0 <= j < i ==> chunk@[j] != b,
        decreases chunk.len() - i,
    {
        if chunk[i] == b {
            return true;
        }
        i = i + 1;
    }
    false
}

} // verus!
