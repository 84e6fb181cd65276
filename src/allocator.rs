//! Which candidate block takes a record, and where inside it.
//!
//! Candidates are probed in increasing index order. For each one the caller
//! opens the block file, tries a non-blocking lock and, when it holds the
//! lock, reads the file's length; `decide` turns that observation into a
//! decision. A committed placement is written by the caller in this order:
//! the header (when asked), padding up to the record start, the metadata,
//! a flush, the length extension to the reserved end, the unlock, and only
//! then the payload.
use crate::framing::{
    align_up_spec, record_total, record_total_spec, HEADER_LEN,
};
use crate::framing::padding_to_align;
use crate::invocation::UsageError;
use vstd::prelude::*;

verus! {

/// Which records a block with space left still accepts.
#[derive(Clone, Copy, Debug, PartialEq, Eq, Structural)]
pub enum CapacityPolicy {
    /// A block accepts a record wherever the record's start lies before the
    /// block size, even when the record runs past it.
    StartWithin,
    /// A block accepts a record only where the whole record ends within the
    /// block size. A block that holds no record yet accepts any record, so a
    /// record larger than a block still finds a place.
    WholeRecord,
}

/// A validated request to store one record.
#[derive(Clone, Copy, Debug, PartialEq, Eq, Structural)]
pub struct ArchiveRequest {
    pub block_size: u64,
    pub payload_len: u64,
    pub extra_len: u64,
    pub policy: CapacityPolicy,
}

/// What the caller observed on one candidate block.
#[derive(Clone, Copy, Debug, PartialEq, Eq, Structural)]
pub enum Probe {
    /// Another process holds the block's lock.
    Contended,
    /// The lock was taken; `end` is the block file's current length.
    Locked { end: u64 },
}

/// Why a candidate was passed over.
#[derive(Clone, Copy, Debug, PartialEq, Eq, Structural)]
pub enum SkipReason {
    Contended,
    Full,
}

/// Where a record goes inside a block, and what has to be written first.
#[derive(Clone, Copy, Debug, PartialEq, Eq, Structural)]
pub struct Placement {
    pub index: u64,
    /// The block is new: its header goes at offset 0.
    pub write_header: bool,
    /// Zero bytes written between the header (or the old end) and the record.
    pub padding: u64,
    /// Offset of the record inside the block.
    pub start: u64,
    pub record_total: u64,
    /// Length of the block file once the record's space is reserved.
    pub reserved_end: u64,
    /// `index * block_size + start`: how the record is found again.
    pub logical_offset: u64,
}

/// The decision on one candidate block.
#[derive(Clone, Copy, Debug, PartialEq, Eq, Structural)]
pub enum Decision {
    /// Go on to the next index.
    Skip(SkipReason),
    /// Write the record here.
    Commit(Placement),
    /// The record's logical offset would not fit in a `u64`.
    OutOfRange,
}

impl ArchiveRequest {
    /// Every quantity the allocator computes fits in a `u64`.
    pub open spec fn fits(self) -> bool {
        self.block_size as int + record_total_spec(self.payload_len as int, self.extra_len as int)
            <= u64::MAX
    }

    pub open spec fn total(self) -> int {
        record_total_spec(self.payload_len as int, self.extra_len as int)
    }

    /// Where a record would start in a block whose file is `end` bytes long.
    pub open spec fn start_at(self, end: u64) -> int {
        if end == 0 {
            HEADER_LEN as int
        } else {
            align_up_spec(end as int)
        }
    }

    /// A locked block whose file is `end` bytes long takes the record.
    pub open spec fn has_room(self, end: u64) -> bool {
        let start = self.start_at(end);
        &&& start < self.block_size
        &&& (self.policy == CapacityPolicy::WholeRecord ==> (start + self.total()
            <= self.block_size || start == HEADER_LEN))
    }

    /// The decision on candidate `index`, observed as `probe`.
    pub open spec fn decision_spec(self, index: u64, probe: Probe) -> Decision {
        match probe {
            Probe::Contended => Decision::Skip(SkipReason::Contended),
            Probe::Locked { end } => if !self.has_room(end) {
                Decision::Skip(SkipReason::Full)
            } else if index as int * self.block_size + self.start_at(end) > u64::MAX {
                Decision::OutOfRange
            } else {
                let start = self.start_at(end);
                Decision::Commit(
                    Placement {
                        index,
                        write_header: end == 0,
                        padding: (start - (if end == 0 { HEADER_LEN as int } else { end as int
                        })) as u64,
                        start: start as u64,
                        record_total: self.total() as u64,
                        reserved_end: (start + self.total()) as u64,
                        logical_offset: (index as int * self.block_size + start) as u64,
                    },
                )
            },
        }
    }

    /// A request that the allocator can serve: a block holds more than its
    /// header, and every offset it computes fits in a `u64`.
    pub open spec fn valid(self) -> bool {
        self.block_size > HEADER_LEN && self.fits()
    }

    /// A request to store a payload of `payload_len` bytes with `extra_len`
    /// bytes of extra metadata in blocks of `block_size` bytes.
    pub fn new(block_size: u64, payload_len: u64, extra_len: u64, policy: CapacityPolicy) -> (r:
        Result<ArchiveRequest, UsageError>)
        ensures
            block_size <= HEADER_LEN ==> r == Err::<ArchiveRequest, UsageError>(
                UsageError::BlockSizeTooSmall,
            ),
            block_size > HEADER_LEN && block_size as int + record_total_spec(
                payload_len as int,
                extra_len as int,
            ) > u64::MAX ==> r == Err::<ArchiveRequest, UsageError>(UsageError::RecordTooLarge),
            r is Ok ==> r->Ok_0.valid(),
            r is Ok <==> block_size > HEADER_LEN && block_size as int + record_total_spec(
                payload_len as int,
                extra_len as int,
            ) <= u64::MAX,
            r is Ok ==> r->Ok_0 == (ArchiveRequest { block_size, payload_len, extra_len, policy }),
    {
        if block_size <= HEADER_LEN {
            return Err(UsageError::BlockSizeTooSmall);
        }
        let total = match record_total(payload_len, extra_len) {
            Some(t) => t,
            None => {
                return Err(UsageError::RecordTooLarge);
            },
        };
        if total > u64::MAX - block_size {
            return Err(UsageError::RecordTooLarge);
        }
        Ok(ArchiveRequest { block_size, payload_len, extra_len, policy })
    }

    /// The decision on candidate block `index`, observed as `probe`.
    pub fn decide(&self, index: u64, probe: Probe) -> (r: Decision)
        requires
            self.fits(),
        ensures
            r == self.decision_spec(index, probe),
            r matches Decision::Commit(p) ==> {
                &&& p.start % 16 == 0
                &&& p.start >= HEADER_LEN
                &&& p.record_total == self.total()
                &&& p.reserved_end == p.start + p.record_total
            },
    {
        let end = match probe {
            Probe::Contended => {
                return Decision::Skip(SkipReason::Contended);
            },
            Probe::Locked { end } => end,
        };
        if end >= self.block_size {
            // Alignment only moves the start further out.
            return Decision::Skip(SkipReason::Full);
        }
        let write_header = end == 0;
        let written = if write_header {
            HEADER_LEN
        } else {
            end
        };
        let padding = padding_to_align(written);
        let start = written + padding;
        assert(start == self.start_at(end));
        if start >= self.block_size {
            return Decision::Skip(SkipReason::Full);
        }
        let total = match record_total(self.payload_len, self.extra_len) {
            Some(t) => t,
            None => {
                return Decision::Skip(SkipReason::Full);
            },
        };
        match self.policy {
            CapacityPolicy::StartWithin => {},
            CapacityPolicy::WholeRecord => {
                if start != HEADER_LEN && total > self.block_size - start {
                    return Decision::Skip(SkipReason::Full);
                }
            },
        }
        let base = match index.checked_mul(self.block_size) {
            Some(b) => b,
            None => {
                assert(index as int * self.block_size + start > u64::MAX) by (nonlinear_arith)
                    requires
                        index as int * self.block_size > u64::MAX,
                        start >= 0,
                ;
                return Decision::OutOfRange;
            },
        };
        if base > u64::MAX - start {
            return Decision::OutOfRange;
        }
        Decision::Commit(
            Placement {
                index,
                write_header,
                padding,
                start,
                record_total: total,
                reserved_end: start + total,
                logical_offset: base + start,
            },
        )
    }
}

/// The decision on candidate `k` commits, and every earlier candidate was
/// passed over: the driver stops at `k`.
pub open spec fn commits_first_at(req: ArchiveRequest, probes: Seq<Probe>, k: int) -> bool {
    &&& 0 <= k < probes.len()
    &&& k <= u64::MAX
    &&& req.decision_spec(k as u64, probes[k]) is Commit
    &&& forall|j: int| 0 <= j < k ==> (#[trigger] req.decision_spec(j as u64, probes[j])) is Skip
}

/// A committed record's total length is the two length fields plus the extra
/// metadata plus the payload, and it starts on a multiple of 16 past the
/// block header.
pub proof fn lemma_record_shape(req: ArchiveRequest, index: u64, probe: Probe)
    requires
        req.fits(),
    ensures
        req.decision_spec(index, probe) matches Decision::Commit(p) ==> {
            &&& p.record_total == req.extra_len + req.payload_len + 16
            &&& p.start % 16 == 0
            &&& p.start >= 16
            &&& p.logical_offset == index * req.block_size + p.start
        },
{
}

/// Two commits into one block, the second made after the first one's
/// reservation (the lock orders them, and a block file only grows), occupy
/// disjoint byte ranges, and only the first writer of a block writes its header.
pub proof fn lemma_commits_disjoint(
    first: ArchiveRequest,
    second: ArchiveRequest,
    index: u64,
    first_end: u64,
    second_end: u64,
)
    requires
        first.fits(),
        second.fits(),
        first.decision_spec(index, Probe::Locked { end: first_end }) is Commit,
        second.decision_spec(index, Probe::Locked { end: second_end }) is Commit,
        second_end >= first.decision_spec(index, Probe::Locked { end: first_end })->Commit_0.reserved_end,
    ensures
        ({
            let p1 = first.decision_spec(index, Probe::Locked { end: first_end })->Commit_0;
            let p2 = second.decision_spec(index, Probe::Locked { end: second_end })->Commit_0;
            &&& first_end <= p1.start
            &&& p1.start + p1.record_total <= p2.start
            &&& !p2.write_header
        }),
{
}

/// Candidates are taken in increasing order: where the driver commits at
/// index `k`, every lower index was contended or had no room for the record
/// when it was probed.
pub proof fn lemma_lowest_free_block(req: ArchiveRequest, probes: Seq<Probe>, k: int)
    requires
        req.fits(),
        commits_first_at(req, probes, k),
    ensures
        forall|j: int|
            0 <= j < k ==> match #[trigger] probes[j] {
                Probe::Contended => true,
                Probe::Locked { end } => !req.has_room(end),
            },
{
    assert forall|j: int| 0 <= j < k implies match #[trigger] probes[j] {
        Probe::Contended => true,
        Probe::Locked { end } => !req.has_room(end),
    } by {
        assert(req.decision_spec(j as u64, probes[j]) is Skip);
    }
}

/// A block file that nobody has written yet takes any record, so the search
/// ends at the first uncontended new block.
pub proof fn lemma_new_block_has_room(req: ArchiveRequest)
    requires
        req.block_size > HEADER_LEN,
    ensures
        req.has_room(0),
{
}

} // verus!
