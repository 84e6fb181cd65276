//! Reading the result of the advisory lock calls.
//!
//! The caller makes the system call (an exclusive, non-blocking `flock`, or
//! its release) and hands over the return value and, where it is non-zero,
//! the error number.
use crate::errno::{host_codes, ErrnoCodes};
use vstd::prelude::*;

verus! {

/// Outcome of a non-blocking lock attempt that returned `ret`, with `err`
/// the error number where `ret` is non-zero: `Ok(true)` when the lock was
/// taken, `Ok(false)` when another process holds it, and the error number
/// otherwise.
pub fn lock_outcome(ret: i32, err: i32, codes: ErrnoCodes) -> (r: Result<bool, i32>)
    ensures
        ret == 0 ==> r == Ok::<bool, i32>(true),
        ret != 0 && err == codes.would_block ==> r == Ok::<bool, i32>(false),
        ret != 0 && err != codes.would_block ==> r == Err::<bool, i32>(err),
{
    if ret != 0 {
        if err == codes.would_block {
            return Ok(false);
        }
        return Err(err);
    }
    Ok(true)
}

/// `lock_outcome` with the host platform's error numbers.
pub fn lock_outcome_host(ret: i32, err: i32) -> (r: Result<bool, i32>)
    ensures
        ret == 0 ==> r == Ok::<bool, i32>(true),
        ret != 0 ==> (r == Ok::<bool, i32>(false) || r == Err::<bool, i32>(err)),
{
    lock_outcome(ret, err, host_codes())
}

/// Outcome of a lock release that returned `ret`, with `err` the error
/// number where `ret` is non-zero.
pub fn unlock_outcome(ret: i32, err: i32) -> (r: Result<(), i32>)
    ensures
        ret == 0 <==> r is Ok,
        ret != 0 ==> r == Err::<(), i32>(err),
{
    if ret != 0 {
        return Err(err);
    }
    Ok(())
}

} // verus!
