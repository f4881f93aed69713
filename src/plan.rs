//! What a successful transition does: the ordered account updates that the
//! ledger carries out, all or none.
use vstd::prelude::*;

use crate::address::SeedSet;
use crate::error::MarketError;
use crate::identity::Identity;
use crate::state::{BidEscrowState, ListEscrowState, PlatformState};

verus! {

/// A record to store in an account.
#[derive(Clone, Copy, Debug, PartialEq, Eq)]
pub enum Record {
    Platform(PlatformState),
    Listing(ListEscrowState),
    Bid(BidEscrowState),
}

impl Record {
    pub open spec fn encoding(self) -> Seq<u8> {
        match self {
            Record::Platform(r) => r.encoding(),
            Record::Listing(r) => r.encoding(),
            Record::Bid(r) => r.encoding(),
        }
    }

    /// The bytes to store.
    pub fn pack(&self) -> (r: Vec<u8>)
        ensures
            r@ == self.encoding(),
    {
        match self {
            Record::Platform(r) => r.pack(),
            Record::Listing(r) => r.pack(),
            Record::Bid(r) => r.pack(),
        }
    }
}

/// The informational line a mutating command reports.
#[derive(Clone, Copy, Debug, PartialEq, Eq)]
pub enum Event {
    Listed { lister: Identity, amount: u64, mint: Identity },
    Delisted { lister: Identity, amount: u64, mint: Identity },
    BidPlaced { bidder: Identity, amount: u64, mint: Identity },
    BidWithdrawn { bidder: Identity, amount: u64, mint: Identity },
    BidAccepted { bidder: Identity, lister: Identity, amount: u64, mint: Identity },
    ListingAccepted { buyer: Identity, lister: Identity, amount: u64, mint: Identity },
}

/// One account update.
#[derive(Clone, Copy, Debug, PartialEq, Eq)]
pub enum Effect {
    /// The system program creates `address` with `space` bytes owned by
    /// `owner`, funded by `payer` to the rent-exempt minimum; the new account
    /// signs with `seeds` and bump seed `nonce`.
    CreateAccount {
        payer: Identity,
        address: Identity,
        space: u64,
        owner: Identity,
        seeds: SeedSet,
        nonce: u8,
    },
    /// The token program makes `account` a token account of `mint` whose
    /// transfers `authority` authorizes.
    InitializeTokenAccount { account: Identity, mint: Identity, authority: Identity },
    /// The token program moves one unit of `mint` from `source` to
    /// `destination`, authorized by `authority`: a wallet that signed
    /// (`signer` is `None`) or a derived address signing with its seeds.
    /// `checked` asks the token program to check the mint and its decimals (0).
    TransferItem {
        source: Identity,
        mint: Identity,
        destination: Identity,
        authority: Identity,
        signer: Option<(SeedSet, u8)>,
        checked: bool,
    },
    /// The token program closes the empty token account `account`, sending
    /// its balance to `destination`; `authority` signs with its seeds.
    CloseTokenAccount {
        account: Identity,
        destination: Identity,
        authority: Identity,
        seeds: SeedSet,
        nonce: u8,
    },
    /// The system program moves `lamports` from the signer `from` to `to`.
    Pay { from: Identity, to: Identity, lamports: u64 },
    /// `lamports` leave the program-owned account `from` and reach `to`.
    Move { from: Identity, to: Identity, lamports: u64 },
    /// The whole balance that `from` holds at this point goes to `to`.
    Sweep { from: Identity, to: Identity },
    /// `record` is stored in `account`.
    Write { account: Identity, record: Record },
    /// The event line is reported.
    Log(Event),
}

/// The ordered updates of a successful transition, or why it was refused.
pub open spec fn outcome(r: Result<Vec<Effect>, MarketError>) -> Result<Seq<Effect>, MarketError> {
    match r {
        Ok(v) => Ok(v@),
        Err(e) => Err(e),
    }
}

/// The bump seed of a derived address that `key` must equal.
pub open spec fn check_pda(d: Option<(Identity, u8)>, key: Identity) -> Result<u8, MarketError> {
    match d {
        None => Err(MarketError::AddressUnavailable),
        Some((a, n)) => if a == key {
            Ok(n)
        } else {
            Err(MarketError::IdentityMismatch)
        },
    }
}

/// Checks that `key` is the derived address `d`.
pub fn match_pda(d: Option<(Identity, u8)>, key: &Identity) -> (r: Result<u8, MarketError>)
    ensures
        r == check_pda(d, *key),
{
    match d {
        None => Err(MarketError::AddressUnavailable),
        Some((a, n)) => if a.same_as(key) {
            Ok(n)
        } else {
            Err(MarketError::IdentityMismatch)
        },
    }
}

} // verus!
