use blockpack::invocation::{
    read_hint, unarchive, validate_options, Command, Operation, ParsedOptions, UsageError,
    DEFAULT_BLOCK_SIZE,
};

fn opts(help: bool, has_extra: bool, has_unarchive: bool, block_size: u64, free_args: usize) -> ParsedOptions {
    ParsedOptions { help, has_extra, has_unarchive, block_size, free_args }
}

#[test]
fn help_first() {
    assert_eq!(validate_options(opts(true, true, true, 0, 0)), Ok(Command::ShowHelp));
}

#[test]
fn extra_and_offset_exclusive() {
    assert_eq!(validate_options(opts(false, true, true, 1024, 2)), Err(UsageError::ConflictingOptions));
    assert_eq!(validate_options(opts(false, false, false, 1024, 2)), Err(UsageError::ConflictingOptions));
    assert_eq!(UsageError::ConflictingOptions.exit_code(), 3);
}

#[test]
fn block_size_sixteen_rejected() {
    assert_eq!(validate_options(opts(false, true, false, 16, 2)), Err(UsageError::BlockSizeTooSmall));
    assert_eq!(validate_options(opts(false, false, true, 3, 1)), Err(UsageError::BlockSizeTooSmall));
    assert_eq!(UsageError::BlockSizeTooSmall.exit_code(), 3);
}

#[test]
fn argument_counts() {
    assert_eq!(
        validate_options(opts(false, true, false, DEFAULT_BLOCK_SIZE, 2)),
        Ok(Command::Run(Operation::Archive { block_size: DEFAULT_BLOCK_SIZE }))
    );
    assert_eq!(validate_options(opts(false, true, false, 1024, 1)), Err(UsageError::WrongArgumentCount));
    assert_eq!(
        validate_options(opts(false, false, true, 1024, 1)),
        Ok(Command::Run(Operation::Unarchive { block_size: 1024 }))
    );
    assert_eq!(validate_options(opts(false, false, true, 1024, 2)), Err(UsageError::WrongArgumentCount));
    assert_eq!(UsageError::WrongArgumentCount.exit_code(), 2);
}

#[test]
fn extraction_stubs() {
    assert_eq!(unarchive("root", 1024, 16), 1);
    assert_eq!(read_hint("root.hint"), 0);
}
