//! The verdicts that reject a transaction, and the faults of a ledger query.

use vstd::prelude::*;

verus! {

/// Why the ledger could not answer a query.
#[derive(Debug, PartialEq, Eq, Copy, Clone, Structural)]
pub enum SysError {
    /// The source holds no record at the index asked for.
    IndexOutOfBound,
    /// The record lacks the field asked for.
    ItemMissing,
    /// The answer did not fit; the value is the length that it needs.
    LengthNotEnough(usize),
    /// The answer is not a well-formed value.
    Encoding,
}

/// Why a transaction is rejected. Each variant has a fixed number, see [`Error::code`].
#[derive(Debug, PartialEq, Eq, Copy, Clone, Structural)]
pub enum Error {
    /// A query named a record that the transaction does not hold.
    IndexOutOfBound,
    /// A query named a field that the record does not hold.
    ItemMissing,
    /// The answer to a query did not fit.
    LengthNotEnough,
    /// The answer to a query was not well formed.
    Encoding,
    /// A created info record is not bound to the index-state record beside it.
    InvalidArgument,
    /// An info record is not exactly ten bytes long.
    InfoDataLenError,
    /// An index-state record is not exactly two bytes long, or a consumed
    /// one lacks its position.
    IndexStateDataLenError,
    /// The info record that an update needs, consumed or created, is absent.
    InfoTypeNotExist,
    /// The info record and the index-state record disagree on the position.
    InfoIndexNotSame,
    /// The timestamp of an updated info record did not grow.
    OutputTimestampNotBigger,
    /// The block number of an updated info record did not grow.
    OutputBlockNumberNotBigger,
    /// The time lock of the consuming input does not match the new content.
    InvalidTimeInfoSince,
    /// The index-state record that the validator needs is absent.
    IndexStateTypeNotExist,
    /// The position of an index-state record is not a slot of the ring.
    IndexStateOutOfBound,
    /// The capacity of an index-state record is not the size of the ring.
    InfoAmountError,
    /// The position did not advance by one slot, wrapping after the last.
    IndexIncreaseError,
}

impl Error {
    /// The number of a verdict.
    pub open spec fn spec_code(self) -> i8 {
        match self {
            Error::IndexOutOfBound => 1,
            Error::ItemMissing => 2,
            Error::LengthNotEnough => 3,
            Error::Encoding => 4,
            Error::InvalidArgument => 5,
            Error::InfoDataLenError => 6,
            Error::IndexStateDataLenError => 7,
            Error::InfoTypeNotExist => 8,
            Error::InfoIndexNotSame => 9,
            Error::OutputTimestampNotBigger => 10,
            Error::OutputBlockNumberNotBigger => 11,
            Error::InvalidTimeInfoSince => 12,
            Error::IndexStateTypeNotExist => 13,
            Error::IndexStateOutOfBound => 14,
            Error::InfoAmountError => 15,
            Error::IndexIncreaseError => 16,
        }
    }

    /// The number under which the ledger reports this verdict. Never zero,
    /// which stands for acceptance.
    #[verifier::when_used_as_spec(spec_code)]
    pub fn code(self) -> (code: i8)
        ensures
            code == self.spec_code(),
            1 <= code <= 16,
    {
        match self {
            Error::IndexOutOfBound => 1,
            Error::ItemMissing => 2,
            Error::LengthNotEnough => 3,
            Error::Encoding => 4,
            Error::InvalidArgument => 5,
            Error::InfoDataLenError => 6,
            Error::IndexStateDataLenError => 7,
            Error::InfoTypeNotExist => 8,
            Error::InfoIndexNotSame => 9,
            Error::OutputTimestampNotBigger => 10,
            Error::OutputBlockNumberNotBigger => 11,
            Error::InvalidTimeInfoSince => 12,
            Error::IndexStateTypeNotExist => 13,
            Error::IndexStateOutOfBound => 14,
            Error::InfoAmountError => 15,
            Error::IndexIncreaseError => 16,
        }
    }

    /// Two verdicts with the same number are the same verdict.
    pub proof fn lemma_code_injective(a: Error, b: Error)
        ensures
            a.spec_code() == b.spec_code() <==> a == b,
    {
    }
}

impl From<SysError> for Error {
    /// A fault of a query becomes the verdict of the same name.
    fn from(err: SysError) -> (verdict: Error) {
        match err {
            SysError::IndexOutOfBound => Error::IndexOutOfBound,
            SysError::ItemMissing => Error::ItemMissing,
            SysError::LengthNotEnough(_) => Error::LengthNotEnough,
            SysError::Encoding => Error::Encoding,
        }
    }
}

impl vstd::std_specs::convert::FromSpecImpl<SysError> for Error {
    open spec fn obeys_from_spec() -> bool {
        true
    }

    open spec fn from_spec(err: SysError) -> Error {
        match err {
            SysError::IndexOutOfBound => Error::IndexOutOfBound,
            SysError::ItemMissing => Error::ItemMissing,
            SysError::LengthNotEnough(_) => Error::LengthNotEnough,
            SysError::Encoding => Error::Encoding,
        }
    }
}

} // verus!
