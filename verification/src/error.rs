//! The faults a host read can report and the outcomes of a validation.

use vstd::prelude::*;
use vstd::std_specs::convert::FromSpecImpl;

verus! {

/// A fault that the host reports for a read.
#[derive(Debug, Clone, Copy, PartialEq, Eq, Structural)]
pub enum SysError {
    /// The index is past the last item of the list.
    IndexOutOfBound,
    /// The cell or script asked for cannot be resolved.
    ItemMissing,
    /// Fewer bytes are available than were asked for.
    LengthNotEnough,
    /// The underlying data is malformed.
    Encoding,
}

/// Why a transaction is rejected.
#[derive(Debug, Clone, Copy, PartialEq, Eq, Structural)]
pub enum Error {
    /// A read went past the end of a list where data was expected.
    IndexOutOfBound,
    /// A cell or script could not be resolved.
    ItemMissing,
    /// Fewer bytes were available than a read needed.
    LengthNotEnough,
    /// Malformed data; never recovered.
    Encoding,
    /// The script's arguments are shorter than a governance lock hash.
    InvalidArgument,
    /// A new identifier appears while no governance lock is spent.
    RequireGovernanceMode,
    /// A new identifier is not the one derived for its output.
    InvalidNft,
}

impl Error {
    /// The outcome code of the rejection: 1 to 7 in declaration order.
    pub open spec fn spec_code(self) -> i8 {
        match self {
            Error::IndexOutOfBound => 1,
            Error::ItemMissing => 2,
            Error::LengthNotEnough => 3,
            Error::Encoding => 4,
            Error::InvalidArgument => 5,
            Error::RequireGovernanceMode => 6,
            Error::InvalidNft => 7,
        }
    }

    /// The outcome code handed to the host for this rejection.
    #[verifier::when_used_as_spec(spec_code)]
    pub fn code(self) -> (code: i8)
        ensures
            code == self.spec_code(),
            1 <= code <= 7,
    {
        match self {
            Error::IndexOutOfBound => 1,
            Error::ItemMissing => 2,
            Error::LengthNotEnough => 3,
            Error::Encoding => 4,
            Error::InvalidArgument => 5,
            Error::RequireGovernanceMode => 6,
            Error::InvalidNft => 7,
        }
    }
}

/// The rejection that a host fault turns into when nothing recovers it: the
/// one of the same name.
pub open spec fn rejection_of(fault: SysError) -> Error {
    match fault {
        SysError::IndexOutOfBound => Error::IndexOutOfBound,
        SysError::ItemMissing => Error::ItemMissing,
        SysError::LengthNotEnough => Error::LengthNotEnough,
        SysError::Encoding => Error::Encoding,
    }
}

impl From<SysError> for Error {
    fn from(fault: SysError) -> (out: Error) {
        match fault {
            SysError::IndexOutOfBound => Error::IndexOutOfBound,
            SysError::ItemMissing => Error::ItemMissing,
            SysError::LengthNotEnough => Error::LengthNotEnough,
            SysError::Encoding => Error::Encoding,
        }
    }
}

impl FromSpecImpl<SysError> for Error {
    open spec fn obeys_from_spec() -> bool {
        true
    }

    open spec fn from_spec(fault: SysError) -> Error {
        rejection_of(fault)
    }
}

/// The outcome code that stands for a verdict, 0 for acceptance and the
/// rejection's code otherwise.
pub open spec fn outcome_code(verdict: Result<(), Error>) -> i8 {
    match verdict {
        Ok(_) => 0,
        Err(e) => e.spec_code(),
    }
}

/// Distinct rejections have distinct codes, and none has the code of acceptance.
pub proof fn codes_are_distinct(a: Error, b: Error)
    ensures
        a.spec_code() != 0,
        a.spec_code() == b.spec_code() ==> a == b,
{
}

} // verus!
