//! The failure taxonomy.  Every failure aborts the whole invocation with
//! no persisted effect; each kind maps to a stable small integer that is
//! surfaced to the caller.

use vstd::prelude::*;

verus! {

/// The program-defined failure kinds.
#[derive(Clone, Copy, Debug, PartialEq, Eq, Structural)]
pub enum HitMyBetError {
    /// The invocation does not target this program's identity.
    IncorrectProgramId,
    /// The instruction's version field differs from the protocol's.
    VersionMismatch,
    /// The instruction bytes are malformed.
    InstructionUnpackError,
    /// A market record already exists at the derived address.
    AlreadyInitialized,
    /// A supplied account is not at the derived address.
    InvalidProgramDerivedAddress,
    /// A required co-signer did not sign the invocation.
    InvalidSigner,
    /// The market record is not owned by this program.
    InvalidMarketOwner,
    /// The market's outcome has already been set.
    MarketIsResolved,
    /// The market's open window has passed.
    MarketIsClosed,
    /// The signer is not authorized to resolve this market.
    InvalidResolver,
    /// The market's outcome has not been set yet.
    MarketIsNotResolved,
}

/// The stable numeric code of each failure kind.
pub open spec fn spec_error_code(e: HitMyBetError) -> u32 {
    match e {
        HitMyBetError::IncorrectProgramId => 1,
        HitMyBetError::VersionMismatch => 2,
        HitMyBetError::InstructionUnpackError => 3,
        HitMyBetError::AlreadyInitialized => 4,
        HitMyBetError::InvalidProgramDerivedAddress => 5,
        HitMyBetError::InvalidSigner => 6,
        HitMyBetError::InvalidMarketOwner => 7,
        HitMyBetError::MarketIsResolved => 8,
        HitMyBetError::MarketIsClosed => 9,
        HitMyBetError::InvalidResolver => 10,
        HitMyBetError::MarketIsNotResolved => 11,
    }
}

impl HitMyBetError {
    /// The stable small integer surfaced to the caller for this kind.
    pub fn code(self) -> (r: u32)
        ensures
            r == spec_error_code(self),
    {
        match self {
            HitMyBetError::IncorrectProgramId => 1,
            HitMyBetError::VersionMismatch => 2,
            HitMyBetError::InstructionUnpackError => 3,
            HitMyBetError::AlreadyInitialized => 4,
            HitMyBetError::InvalidProgramDerivedAddress => 5,
            HitMyBetError::InvalidSigner => 6,
            HitMyBetError::InvalidMarketOwner => 7,
            HitMyBetError::MarketIsResolved => 8,
            HitMyBetError::MarketIsClosed => 9,
            HitMyBetError::InvalidResolver => 10,
            HitMyBetError::MarketIsNotResolved => 11,
        }
    }
}

/// Any way a whole invocation can fail: one of the program's own failure
/// kinds, or a fault that the host ledger would report on its own
/// account bookkeeping.
#[derive(Clone, Copy, Debug, PartialEq, Eq, Structural)]
pub enum ProgramFailure {
    /// A failure kind of this program's taxonomy.
    Custom(HitMyBetError),
    /// Fewer accounts were supplied than the operation consumes.
    NotEnoughAccounts,
    /// A referenced record's bytes do not decode as the expected type.
    InvalidRecordData,
    /// A paying account holds less than a transfer or a record creation
    /// asks of it.
    InsufficientFunds,
}

} // verus!
