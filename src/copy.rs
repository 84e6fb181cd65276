//! The copy engine's decisions.
//!
//! A transfer of `len` bytes first runs a zero-copy kernel primitive in a
//! loop; each call's outcome goes through `zero_copy_step`. When the
//! primitive reports that it does not support the files before any byte has
//! moved, the transfer switches to a buffered copy, whose byte count
//! `check_buffered_copy` holds against `len`.
use crate::errno::{host_codes, ErrnoCodes};
use vstd::prelude::*;

verus! {

/// Largest byte count requested from one zero-copy call.
pub const MAX_CHUNK: u64 = 0xffff_ffff;

/// What one zero-copy call returned.
#[derive(Clone, Copy, Debug, PartialEq, Eq, Structural)]
pub enum ZeroCopyResult {
    /// This many bytes were moved.
    Sent(u64),
    /// The call failed with this error number.
    Failed(i32),
}

/// Why a transfer failed.
#[derive(Clone, Copy, Debug, PartialEq, Eq, Structural)]
pub enum TransferError {
    /// The operating system reported this error number.
    Os(i32),
    /// Fewer bytes than asked for could be moved: the source ended early.
    ShortCopy { expected: u64, copied: u64 },
    /// A call reported more bytes than were left to move.
    Overrun { remaining: u64, sent: u64 },
}

/// What the zero-copy loop does next.
#[derive(Clone, Copy, Debug, PartialEq, Eq, Structural)]
pub enum ZeroCopyStep {
    /// Call again; this many bytes are left.
    Continue(u64),
    /// All bytes have moved.
    Done,
    /// Zero-copy cannot serve these files and nothing has moved yet: use the
    /// buffered copy for the whole length.
    Unsupported,
    /// Abort the transfer.
    Fatal(TransferError),
}

/// The next step of the zero-copy loop for a transfer of `len` bytes of
/// which `remaining` are left, after a call returned `result`.
pub open spec fn zero_copy_step_spec(
    len: u64,
    remaining: u64,
    result: ZeroCopyResult,
    codes: ErrnoCodes,
) -> ZeroCopyStep {
    match result {
        ZeroCopyResult::Sent(sent) => if sent > remaining {
            ZeroCopyStep::Fatal(TransferError::Overrun { remaining, sent })
        } else if sent == remaining {
            ZeroCopyStep::Done
        } else if sent == 0 {
            ZeroCopyStep::Fatal(
                TransferError::ShortCopy { expected: len, copied: (len - remaining) as u64 },
            )
        } else {
            ZeroCopyStep::Continue((remaining - sent) as u64)
        },
        ZeroCopyResult::Failed(code) => if code == codes.again {
            ZeroCopyStep::Continue(remaining)
        } else if remaining == len && (code == codes.invalid || code == codes.no_sys) {
            ZeroCopyStep::Unsupported
        } else {
            ZeroCopyStep::Fatal(TransferError::Os(code))
        },
    }
}

/// Byte count to request from the next zero-copy call.
pub fn chunk_len(remaining: u64) -> (r: u64)
    ensures
        r == if remaining < MAX_CHUNK { remaining } else { MAX_CHUNK },
{
    if remaining < MAX_CHUNK {
        remaining
    } else {
        MAX_CHUNK
    }
}

/// The next step of the zero-copy loop. A would-block error retries without
/// consuming anything; non-support counts as such only before the first byte
/// has moved; every other error is fatal.
pub fn zero_copy_step(len: u64, remaining: u64, result: ZeroCopyResult, codes: ErrnoCodes) -> (r:
    ZeroCopyStep)
    requires
        remaining <= len,
    ensures
        r == zero_copy_step_spec(len, remaining, result, codes),
{
    match result {
        ZeroCopyResult::Sent(sent) => {
            if sent > remaining {
                ZeroCopyStep::Fatal(TransferError::Overrun { remaining, sent })
            } else if sent == remaining {
                ZeroCopyStep::Done
            } else if sent == 0 {
                ZeroCopyStep::Fatal(
                    TransferError::ShortCopy { expected: len, copied: len - remaining },
                )
            } else {
                ZeroCopyStep::Continue(remaining - sent)
            }
        },
        ZeroCopyResult::Failed(code) => {
            if code == codes.again {
                ZeroCopyStep::Continue(remaining)
            } else if remaining == len && (code == codes.invalid || code == codes.no_sys) {
                ZeroCopyStep::Unsupported
            } else {
                ZeroCopyStep::Fatal(TransferError::Os(code))
            }
        },
    }
}

/// `zero_copy_step` with the host platform's error numbers.
pub fn zero_copy_step_host(len: u64, remaining: u64, result: ZeroCopyResult) -> (r: ZeroCopyStep)
    requires
        remaining <= len,
    ensures
        exists|codes: ErrnoCodes| r == zero_copy_step_spec(len, remaining, result, codes),
        result matches ZeroCopyResult::Sent(_) ==> forall|codes: ErrnoCodes|
            r == zero_copy_step_spec(len, remaining, result, codes),
{
    let codes = host_codes();
    zero_copy_step(len, remaining, result, codes)
}

/// The outcome of a buffered copy that moved `copied` bytes out of `expected`:
/// anything but the exact count is an error.
pub fn check_buffered_copy(expected: u64, copied: u64) -> (r: Result<(), TransferError>)
    ensures
        r is Ok <==> copied == expected,
        r is Err ==> r == Err::<(), TransferError>(TransferError::ShortCopy { expected, copied }),
{
    if copied == expected {
        Ok(())
    } else {
        Err(TransferError::ShortCopy { expected, copied })
    }
}

/// Bytes moved by a sequence of zero-copy results.
pub open spec fn sent_total(results: Seq<ZeroCopyResult>) -> int
    decreases results.len(),
{
    if results.len() == 0 {
        0
    } else {
        sent_total(results.drop_last()) + match results.last() {
            ZeroCopyResult::Sent(n) => n as int,
            ZeroCopyResult::Failed(_) => 0,
        }
    }
}

/// Where the zero-copy loop stands after the given results, for a transfer
/// of `len` bytes: `Continue(r)` while it runs with `r` bytes left, or the
/// step that ended it.
pub open spec fn zero_copy_run(len: u64, results: Seq<ZeroCopyResult>, codes: ErrnoCodes) -> ZeroCopyStep
    decreases results.len(),
{
    if results.len() == 0 {
        ZeroCopyStep::Continue(len)
    } else {
        match zero_copy_run(len, results.drop_last(), codes) {
            ZeroCopyStep::Continue(remaining) => zero_copy_step_spec(
                len,
                remaining,
                results.last(),
                codes,
            ),
            other => other,
        }
    }
}

/// While the zero-copy loop runs, the bytes left plus the bytes moved make
/// up the whole length.
pub proof fn lemma_run_accounts(len: u64, results: Seq<ZeroCopyResult>, codes: ErrnoCodes)
    ensures
        zero_copy_run(len, results, codes) matches ZeroCopyStep::Continue(remaining) ==> remaining
            <= len && remaining + sent_total(results) == len,
    decreases results.len(),
{
    if results.len() > 0 {
        lemma_run_accounts(len, results.drop_last(), codes);
    }
}

/// A zero-copy loop that completes has moved exactly `len` bytes, and one
/// that hands over to the buffered copy has moved none, so the buffered copy
/// starts from the source's starting position and moves all `len` bytes.
pub proof fn lemma_transfer_complete(len: u64, results: Seq<ZeroCopyResult>, codes: ErrnoCodes)
    requires
        results.len() > 0,
        zero_copy_run(len, results.drop_last(), codes) is Continue,
    ensures
        zero_copy_run(len, results, codes) is Done ==> sent_total(results) == len,
        zero_copy_run(len, results, codes) is Unsupported ==> sent_total(results) == 0,
{
    lemma_run_accounts(len, results.drop_last(), codes);
}

} // verus!
