//! The vocabulary of the relay loops that copy bytes between the two ends
//! of a proxied connection.
use vstd::prelude::*;

verus! {

/// What a non-blocking read on one end of a relay gave.
#[derive(Clone, Copy, Debug, PartialEq, Eq, Structural)]
pub enum ReadEvent {
    /// This many bytes were read; none means the peer closed its end.
    Read(usize),
    /// Nothing can be read now.
    WouldBlock,
    /// An I/O error other than "would block".
    IoError,
    /// An error that is not an I/O error.
    OtherError,
}

/// What a relay loop does after a read.
#[derive(Clone, Copy, Debug, PartialEq, Eq, Structural)]
pub enum RelayAction {
    /// Write the bytes just read to the other end, then read again.
    Forward(usize),
    /// Drop the bytes just read, then read again.
    Discard,
    /// Read again without writing.
    Retry,
    /// End this round with the given answer: `true` when the end is still
    /// open and only has nothing more to read now, `false` when it closed.
    Stop(bool),
    /// End this round with the read's error.
    Fail,
}

} // verus!
