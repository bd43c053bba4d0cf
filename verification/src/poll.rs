//! What to do after waiting for the Wayland connection.

use vstd::prelude::*;

verus! {

/// The outcome of waiting for the connection.
#[derive(Debug, Clone, Copy, PartialEq, Eq, Structural)]
pub enum PollOutcome {
    /// Waiting failed.
    Failed,
    /// There is data to read.
    Readable,
    /// There is nothing to read.
    Idle,
}

/// The bit of `revents` that tells of data to read.
pub const READABLE: i16 = 1;

/// Reads `libc::POLLIN`, which is the lowest bit on Linux.
#[verifier::external_body]
fn pollin() -> (bit: i16)
    ensures
        bit == READABLE,
{
    libc::POLLIN
}

/// What the result of a poll and what it found mean.
pub open spec fn outcome_of(result: i32, revents: i16) -> PollOutcome {
    if result < 0 {
        PollOutcome::Failed
    } else if result > 0 && revents & READABLE != 0 {
        PollOutcome::Readable
    } else {
        PollOutcome::Idle
    }
}

/// Reads the result of a poll of the connection: `result` is what the call
/// returned, `revents` what it found.
pub fn poll_outcome(result: i32, revents: i16) -> (outcome: PollOutcome)
    ensures
        outcome == outcome_of(result, revents),
{
    if result < 0 {
        PollOutcome::Failed
    } else if result > 0 && (revents & pollin()) != 0 {
        PollOutcome::Readable
    } else {
        PollOutcome::Idle
    }
}

/// The connection is read exactly if the poll found something and the lowest bit
/// of what it found is set. A negative result is a failure, whatever was found.
pub proof fn law_only_readable_connections_are_read(result: i32, revents: i16)
    ensures
        outcome_of(result, revents) is Failed <==> result < 0,
        outcome_of(result, revents) is Readable <==> result > 0 && revents as int % 2 == 1,
{
    assert((revents & 1i16) != 0 <==> revents % 2i16 != 0) by (bit_vector);
}

} // verus!
