//! Closing the log.
use vstd::prelude::*;

verus! {

/// The scratch buffer to hand to the wrapped log when the log is closed:
/// none, whatever the engine offered.
///
/// With a scratch buffer the wrapped log may checkpoint as it closes. Such a
/// checkpoint would run without any wait for durability, so the buffer is
/// withheld and the close is otherwise delegated as it is.
pub fn scratch_for_close<T>(offered: Option<T>) -> (passed: Option<T>)
    ensures
        passed is None,
{
    None
}

} // verus!
