//! Packs files into a rotating set of fixed-capacity block files.
//!
//! The library holds the decisions: the binary framing of blocks and records,
//! which candidate block takes a record and where, how the outcome of a
//! zero-copy transfer or a lock attempt is read, and how an invocation is
//! validated. The program around it performs the file and system calls.
pub mod allocator;
pub mod copy;
pub mod errno;
pub mod framing;
pub mod invocation;
pub mod lock;
pub mod naming;
