use vstd::prelude::*;

verus! {

/// The ways a class file can fail to decode.
///
/// Every reader returns the first of these it runs into; `Unknown` stands
/// for a read that would have gone past the end of the buffer (or a pool
/// count of zero, which the format reserves), kept apart from the typed
/// failures below it.
#[derive(Debug, Clone, Copy, PartialEq, Eq, Structural)]
pub enum ClassFileError {
    Unknown,
    InvalidMagicNumber,
    MajorVersionTooLow,
    InvalidMinorVersion,
    MajorVersionTooHigh,
    UnknownConstantPoolEntryTag,
    InvalidConstantPoolContent,
    UnexpectedConstantPoolType,
    InvalidAccessFlags,
}

} // verus!
