use blockpack::copy::{
    check_buffered_copy, chunk_len, zero_copy_step, zero_copy_step_host, TransferError,
    ZeroCopyResult, ZeroCopyStep, MAX_CHUNK,
};
use blockpack::errno::ErrnoCodes;
use blockpack::lock::{lock_outcome, lock_outcome_host, unlock_outcome};

const CODES: ErrnoCodes = ErrnoCodes { again: 11, would_block: 11, invalid: 22, no_sys: 38 };

#[test]
fn unsupported_before_progress_falls_back() {
    assert_eq!(zero_copy_step(100, 100, ZeroCopyResult::Failed(22), CODES), ZeroCopyStep::Unsupported);
    assert_eq!(zero_copy_step(100, 100, ZeroCopyResult::Failed(38), CODES), ZeroCopyStep::Unsupported);
    assert_eq!(check_buffered_copy(100, 100), Ok(()));
}

#[test]
fn unsupported_after_progress_is_fatal() {
    assert_eq!(
        zero_copy_step(100, 40, ZeroCopyResult::Failed(22), CODES),
        ZeroCopyStep::Fatal(TransferError::Os(22))
    );
}

#[test]
fn would_block_retries() {
    assert_eq!(zero_copy_step(100, 40, ZeroCopyResult::Failed(11), CODES), ZeroCopyStep::Continue(40));
}

#[test]
fn other_errors_are_fatal() {
    assert_eq!(
        zero_copy_step(100, 100, ZeroCopyResult::Failed(5), CODES),
        ZeroCopyStep::Fatal(TransferError::Os(5))
    );
}

#[test]
fn partial_transfers_count_down() {
    let mut remaining = 100;
    let mut moved = 0;
    for sent in [30u64, 50, 20] {
        match zero_copy_step(100, remaining, ZeroCopyResult::Sent(sent), CODES) {
            ZeroCopyStep::Continue(r) => remaining = r,
            ZeroCopyStep::Done => remaining = 0,
            other => panic!("unexpected {:?}", other),
        }
        moved += sent;
    }
    assert_eq!(remaining, 0);
    assert_eq!(moved, 100);
    assert_eq!(zero_copy_step(100, 70, ZeroCopyResult::Sent(30), CODES), ZeroCopyStep::Continue(40));
    assert_eq!(zero_copy_step(100, 20, ZeroCopyResult::Sent(20), CODES), ZeroCopyStep::Done);
}

#[test]
fn source_ending_early_is_short_copy() {
    assert_eq!(
        zero_copy_step(100, 60, ZeroCopyResult::Sent(0), CODES),
        ZeroCopyStep::Fatal(TransferError::ShortCopy { expected: 100, copied: 40 })
    );
    assert_eq!(
        zero_copy_step(100, 60, ZeroCopyResult::Sent(61), CODES),
        ZeroCopyStep::Fatal(TransferError::Overrun { remaining: 60, sent: 61 })
    );
}

#[test]
fn buffered_copy_count_checked() {
    assert_eq!(check_buffered_copy(100, 99), Err(TransferError::ShortCopy { expected: 100, copied: 99 }));
    assert_eq!(check_buffered_copy(0, 0), Ok(()));
}

#[test]
fn chunk_capped() {
    assert_eq!(chunk_len(5), 5);
    assert_eq!(chunk_len(u64::MAX), MAX_CHUNK);
    assert_eq!(chunk_len(MAX_CHUNK), MAX_CHUNK);
}

#[test]
fn host_codes_classify() {
    assert_eq!(
        zero_copy_step_host(10, 10, ZeroCopyResult::Failed(libc::EINVAL)),
        ZeroCopyStep::Unsupported
    );
    assert_eq!(
        zero_copy_step_host(10, 10, ZeroCopyResult::Failed(libc::ENOSYS)),
        ZeroCopyStep::Unsupported
    );
    assert_eq!(
        zero_copy_step_host(10, 4, ZeroCopyResult::Failed(libc::EAGAIN)),
        ZeroCopyStep::Continue(4)
    );
    assert_eq!(lock_outcome_host(-1, libc::EWOULDBLOCK), Ok(false));
    assert_eq!(lock_outcome_host(-1, libc::EBADF), Err(libc::EBADF));
}

#[test]
fn lock_results() {
    assert_eq!(lock_outcome(0, 0, CODES), Ok(true));
    assert_eq!(lock_outcome(-1, 11, CODES), Ok(false));
    assert_eq!(lock_outcome(-1, 9, CODES), Err(9));
    assert_eq!(unlock_outcome(0, 0), Ok(()));
    assert_eq!(unlock_outcome(-1, 9), Err(9));
}
