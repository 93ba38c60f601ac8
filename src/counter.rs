use vstd::prelude::*;

use crate::error::TodoError;

verus! {

/// The stored count as a mathematical value, if a row exists.
pub open spec fn widen(stored: Option<i32>) -> Option<int> {
    match stored {
        Some(c) => Some(c as int),
        None => None,
    }
}

/// The count after one increment: an absent counter starts from 0.
pub open spec fn next_count(stored: Option<int>) -> int {
    match stored {
        Some(c) => c + 1,
        None => 1,
    }
}

/// The stored counter after `n` increments from an absent one.
pub open spec fn after_increments(n: nat) -> Option<int>
    decreases n,
{
    if n == 0 {
        None
    } else {
        Some(next_count(after_increments((n - 1) as nat)))
    }
}

/// The new count for the counter row, given the stored one (`None` when
/// no row exists yet). Fails with `Overflow` at the top of the range.
pub fn increment(stored: Option<i32>) -> (r: Result<i32, TodoError>)
    ensures
        next_count(widen(stored)) <= i32::MAX ==> r == Ok::<i32, TodoError>(
            next_count(widen(stored)) as i32,
        ),
        next_count(widen(stored)) > i32::MAX ==> r == Err::<i32, TodoError>(TodoError::Overflow),
{
    match stored {
        None => Ok(1),
        Some(c) => {
            if c == i32::MAX {
                Err(TodoError::Overflow)
            } else {
                Ok(c + 1)
            }
        },
    }
}

/// Incrementing an absent counter `n` times leaves the count at `n`.
pub proof fn lemma_increments_count(n: nat)
    requires
        n > 0,
    ensures
        after_increments(n) == Some(n as int),
    decreases n,
{
    if n > 1 {
        lemma_increments_count((n - 1) as nat);
    } else {
        assert(after_increments(0) == None::<int>);
    }
}

} // verus!
