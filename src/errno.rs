//! The platform's error numbers that the transfer and lock logic tell apart.
use vstd::prelude::*;

verus! {

/// Error numbers, as the host platform assigns them.
#[derive(Clone, Copy, Debug, PartialEq, Eq, Structural)]
pub struct ErrnoCodes {
    /// The call would block; trying again may succeed.
    pub again: i32,
    /// A non-blocking lock is held elsewhere.
    pub would_block: i32,
    /// The arguments (here: the kinds of file) are not valid for the call.
    pub invalid: i32,
    /// The call is not implemented.
    pub no_sys: i32,
}

/// Relies on libc's `EAGAIN`, `EWOULDBLOCK`, `EINVAL` and `ENOSYS` constants
/// for the target platform. Their values differ between platforms, so nothing
/// is stated of them.
#[verifier::external_body]
pub(crate) fn host_codes() -> (r: ErrnoCodes) {
    ErrnoCodes {
        again: libc::EAGAIN,
        would_block: libc::EWOULDBLOCK,
        invalid: libc::EINVAL,
        no_sys: libc::ENOSYS,
    }
}

} // verus!
