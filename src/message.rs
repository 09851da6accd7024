use vstd::prelude::*;

verus! {

/// An item carried on the job queue: a unit of work, or the signal that
/// tells exactly one worker to stop.
pub enum Message<J> {
    Work(J),
    Terminate,
}

/// Why a pool could not be built.
#[derive(Clone, Copy, Debug, PartialEq, Eq, Structural)]
pub enum PoolError {
    /// The pool was asked for no workers.
    ZeroSize,
    /// The initial worker count exceeds the configured maximum.
    SizeAboveMax,
}

} // verus!
