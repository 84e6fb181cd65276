//! Validation of a command line, once the option parser has read it, and
//! the entry points of the extraction side.
use vstd::prelude::*;

verus! {

/// Block size used when none is given.
pub const DEFAULT_BLOCK_SIZE: u64 = 1073741824;

/// What the option parser found on the command line.
#[derive(Clone, Copy, Debug, PartialEq, Eq, Structural)]
pub struct ParsedOptions {
    pub help: bool,
    /// Extra metadata was given.
    pub has_extra: bool,
    /// An offset to extract from was given.
    pub has_unarchive: bool,
    /// The block size given, or `DEFAULT_BLOCK_SIZE`.
    pub block_size: u64,
    /// Number of positional arguments.
    pub free_args: usize,
}

/// The operation a valid command line asks for.
#[derive(Clone, Copy, Debug, PartialEq, Eq, Structural)]
pub enum Operation {
    /// Store the file named by the second positional argument under the
    /// root named by the first.
    Archive { block_size: u64 },
    /// Extract the record at an offset from the root named by the one
    /// positional argument.
    Unarchive { block_size: u64 },
}

/// What to do for a command line.
#[derive(Clone, Copy, Debug, PartialEq, Eq, Structural)]
pub enum Command {
    ShowHelp,
    Run(Operation),
}

/// A command line or request that cannot be served. Reported before any
/// file is touched.
#[derive(Clone, Copy, Debug, PartialEq, Eq, Structural)]
pub enum UsageError {
    /// Extra metadata and an extraction offset were both given, or neither.
    ConflictingOptions,
    /// The block size is 16 or less: a block would hold no more than its header.
    BlockSizeTooSmall,
    /// The number of positional arguments does not fit the operation.
    WrongArgumentCount,
    /// The record's sizes do not fit in the offsets of a block.
    RecordTooLarge,
}

impl UsageError {
    /// The process exit status that reports this error.
    pub fn exit_code(&self) -> (r: u8)
        ensures
            r == match *self {
                UsageError::WrongArgumentCount => 2u8,
                _ => 3u8,
            },
    {
        match self {
            UsageError::WrongArgumentCount => 2,
            _ => 3,
        }
    }
}

/// The exit status after printing the help text.
pub const HELP_EXIT_CODE: u8 = 2;

/// The command a parsed command line asks for, or why it is refused.
/// Help wins over everything; then exactly one of extra metadata and an
/// extraction offset must be given; then the block size must exceed 16;
/// then extraction takes one positional argument and archiving two.
pub fn validate_options(opts: ParsedOptions) -> (r: Result<Command, UsageError>)
    ensures
        opts.help ==> r == Ok::<Command, UsageError>(Command::ShowHelp),
        !opts.help && opts.has_extra == opts.has_unarchive ==> r == Err::<Command, UsageError>(
            UsageError::ConflictingOptions,
        ),
        !opts.help && opts.has_extra != opts.has_unarchive && opts.block_size <= 16 ==> r == Err::<
            Command,
            UsageError,
        >(UsageError::BlockSizeTooSmall),
        !opts.help && opts.has_extra != opts.has_unarchive && opts.block_size > 16 ==> r == (if opts.has_unarchive {
            if opts.free_args == 1 {
                Ok::<Command, UsageError>(
                    Command::Run(Operation::Unarchive { block_size: opts.block_size }),
                )
            } else {
                Err(UsageError::WrongArgumentCount)
            }
        } else {
            if opts.free_args == 2 {
                Ok::<Command, UsageError>(
                    Command::Run(Operation::Archive { block_size: opts.block_size }),
                )
            } else {
                Err(UsageError::WrongArgumentCount)
            }
        }),
{
    if opts.help {
        return Ok(Command::ShowHelp);
    }
    if opts.has_extra == opts.has_unarchive {
        return Err(UsageError::ConflictingOptions);
    }
    if opts.block_size <= 16 {
        return Err(UsageError::BlockSizeTooSmall);
    }
    if opts.has_unarchive {
        if opts.free_args != 1 {
            return Err(UsageError::WrongArgumentCount);
        }
        Ok(Command::Run(Operation::Unarchive { block_size: opts.block_size }))
    } else {
        if opts.free_args != 2 {
            return Err(UsageError::WrongArgumentCount);
        }
        Ok(Command::Run(Operation::Archive { block_size: opts.block_size }))
    }
}

/// Extraction of the record at `offset` under `root`. Not implemented yet:
/// it always reports failure, with exit status 1.
pub fn unarchive(root: &str, block_size: u64, offset: u64) -> (r: u8)
    ensures
        r == 1,
{
    1
}

/// The block index a search may start from, as a hint file records it. Hint
/// files are not read yet: the search starts at block 0.
pub fn read_hint(hint_path: &str) -> (r: u64)
    ensures
        r == 0,
{
    0
}

} // verus!
