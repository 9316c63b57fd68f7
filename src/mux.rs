use vstd::prelude::*;

use crate::error::{Error, Result};

verus! {

/// What one I/O attempt on a queue that was reported ready came to.
#[derive(Debug)]
pub enum Attempt<E> {
    /// The kernel moved this many bytes.
    Transferred(usize),
    /// The readiness report was stale: the call would have blocked.
    WouldBlock,
    /// The call failed for another reason.
    Failed(E),
}

/// What a readiness-driven send or receive does next.
#[derive(Debug)]
pub enum Step<E> {
    /// Try the I/O operation on this queue, and on no other.
    Attempt(usize),
    /// Drop every pending readiness wait and race them all again.
    Wait,
    /// Finished: this many bytes moved through this queue.
    Done { queue: usize, bytes: usize },
    /// Finished with this error.
    Fail(E),
}

/// Sort the result of one raw send or receive: would-block is set apart from
/// every other failure.
pub fn classify(r: Result<usize>) -> (a: Attempt<Error>)
    ensures
        r matches Ok(n) ==> a == Attempt::<Error>::Transferred(n),
        r matches Err(e) ==> ((a is WouldBlock) <==> (e matches Error::Unix { source } && source
            == nix::errno::Errno::EAGAIN)),
        r matches Err(e) ==> (!(a is WouldBlock) ==> a == Attempt::<Error>::Failed(e)),
{
    match r {
        Ok(n) => Attempt::Transferred(n),
        Err(e) => if e.is_would_block() {
            Attempt::WouldBlock
        } else {
            Attempt::Failed(e)
        },
    }
}

/// Whether a race over `queue_count` queues can begin: it needs at least
/// one queue, and with none there is no queue 0 to wait on.
pub fn race_start(queue_count: usize) -> (r: Result<()>)
    ensures
        queue_count > 0 ==> r is Ok,
        queue_count == 0 ==> r == Err::<(), Error>(Error::InvalidQueue(0)),
{
    if queue_count == 0 {
        Err(Error::InvalidQueue(0))
    } else {
        Ok(())
    }
}

/// The decision once the race of readiness waits has a winner: a failed
/// wait ends the operation at once, another queue is never tried instead,
/// and a successful one leads to an attempt on the winner only.
pub fn after_wait<E>(winner: usize, wait: core::result::Result<(), E>) -> (s: Step<E>)
    ensures
        wait matches Err(e) ==> s == Step::<E>::Fail(e),
        wait is Ok ==> s == Step::<E>::Attempt(winner),
{
    match wait {
        Ok(()) => Step::Attempt(winner),
        Err(e) => Step::Fail(e),
    }
}

/// The decision after the attempt on the winning queue: would-block is the
/// only outcome that starts the race again; a transfer completes with the
/// winner's index and byte count, and any other failure ends the operation.
pub fn after_attempt<E>(winner: usize, attempt: Attempt<E>) -> (s: Step<E>)
    ensures
        attempt matches Attempt::Transferred(n) ==> s == (Step::<E>::Done { queue: winner, bytes: n }),
        attempt is WouldBlock ==> (s is Wait),
        attempt matches Attempt::Failed(e) ==> s == Step::<E>::Fail(e),
{
    match attempt {
        Attempt::Transferred(n) => Step::Done { queue: winner, bytes: n },
        Attempt::WouldBlock => Step::Wait,
        Attempt::Failed(e) => Step::Fail(e),
    }
}

} // verus!
