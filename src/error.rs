//! Failures of a transition.
use vstd::prelude::*;

verus! {

/// The five broad classes of failure.
#[derive(Clone, Copy, Debug, PartialEq, Eq, Structural)]
pub enum ErrorKind {
    Authorization,
    IdentityMismatch,
    State,
    Malformed,
    Resource,
}

/// Why a transition was refused. A refused transition has no effect.
#[derive(Clone, Copy, Debug, PartialEq, Eq, Structural)]
pub enum MarketError {
    /// A required signer did not sign.
    MissingSignature,
    /// The signer is not the recorded authority, lister, bidder or buyer.
    InvalidAuthority,
    /// An account is not the one its seeds, owner or mint call for.
    IdentityMismatch,
    /// The platform configuration has not been initialized.
    Uninitialized,
    /// The listing has already been matched with a buyer.
    ListingAlreadyFulfilled,
    /// The listing has not been matched with a buyer yet.
    ListingNotFulfilled,
    /// The buyer already holds units of the item.
    ItemAlreadyHeld,
    /// The configured fee rate exceeds one whole (a fee above the price).
    InvalidFeeRate,
    /// A stored record has the wrong length or an invalid flag byte.
    MalformedRecord,
    /// An account that should be created already holds data or funds.
    AccountInUse,
    /// No program address could be derived from the seeds.
    AddressUnavailable,
    /// The balances involved do not cover the amounts to be moved.
    InsufficientFunds,
}

impl MarketError {
    pub open spec fn spec_kind(self) -> ErrorKind {
        match self {
            MarketError::MissingSignature | MarketError::InvalidAuthority => ErrorKind::Authorization,
            MarketError::IdentityMismatch => ErrorKind::IdentityMismatch,
            MarketError::Uninitialized
            | MarketError::ListingAlreadyFulfilled
            | MarketError::ListingNotFulfilled
            | MarketError::ItemAlreadyHeld
            | MarketError::InvalidFeeRate => ErrorKind::State,
            MarketError::MalformedRecord => ErrorKind::Malformed,
            MarketError::AccountInUse
            | MarketError::AddressUnavailable
            | MarketError::InsufficientFunds => ErrorKind::Resource,
        }
    }

    /// The class this failure belongs to.
    pub fn kind(&self) -> (r: ErrorKind)
        ensures
            r == self.spec_kind(),
    {
        match self {
            MarketError::MissingSignature | MarketError::InvalidAuthority => ErrorKind::Authorization,
            MarketError::IdentityMismatch => ErrorKind::IdentityMismatch,
            MarketError::Uninitialized
            | MarketError::ListingAlreadyFulfilled
            | MarketError::ListingNotFulfilled
            | MarketError::ItemAlreadyHeld
            | MarketError::InvalidFeeRate => ErrorKind::State,
            MarketError::MalformedRecord => ErrorKind::Malformed,
            MarketError::AccountInUse
            | MarketError::AddressUnavailable
            | MarketError::InsufficientFunds => ErrorKind::Resource,
        }
    }
}

} // verus!
