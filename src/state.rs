//! The three fixed-layout records: platform configuration, listing escrow and
//! bid escrow. Integers are big-endian, flags are one byte holding 0 or 1.
use vstd::prelude::*;

use crate::error::MarketError;
use crate::identity::{
    Identity, be_bytes, be_value, lemma_be_round_trip, lemma_identity_ext, read_be_u64,
    write_be_u64,
};

verus! {

pub const STATESIZE: usize = 41;

pub const LISTESCROWSTATE: usize = 105;

pub const BIDESCROWSTATE: usize = 72;

/// The byte a flag is stored as.
pub open spec fn flag_byte(b: bool) -> u8 {
    if b {
        1u8
    } else {
        0u8
    }
}

fn write_flag(out: &mut Vec<u8>, b: bool)
    ensures
        final(out)@ == old(out)@.push(flag_byte(b)),
{
    if b {
        out.push(1u8);
    } else {
        out.push(0u8);
    }
}

/// The platform-wide configuration: who administers it and the fee rate in
/// parts per billion.
#[derive(Clone, Copy, Debug, PartialEq, Eq)]
pub struct PlatformState {
    pub is_initialized: bool,
    pub authority: Identity,
    pub platform_fee: u64,
}

/// An item offered for sale at `amount`, and whether a buyer was matched.
#[derive(Clone, Copy, Debug, PartialEq, Eq)]
pub struct ListEscrowState {
    pub lister: Identity,
    pub mint: Identity,
    pub amount: u64,
    pub success: bool,
    pub successful_buyer: Identity,
}

/// An offer of `amount` for an item.
#[derive(Clone, Copy, Debug, PartialEq, Eq)]
pub struct BidEscrowState {
    pub bidder: Identity,
    pub mint: Identity,
    pub amount: u64,
}

impl PlatformState {
    pub open spec fn encoding(self) -> Seq<u8> {
        seq![flag_byte(self.is_initialized)] + self.authority@ + be_bytes(self.platform_fee)
    }

    /// `s` is a well-formed platform record.
    pub open spec fn well_formed(s: Seq<u8>) -> bool {
        s.len() == STATESIZE && s[0] <= 1
    }

    /// `s` is a well-formed platform record holding `r`.
    pub open spec fn decodes_to(s: Seq<u8>, r: Self) -> bool {
        &&& Self::well_formed(s)
        &&& r.is_initialized == (s[0] == 1)
        &&& r.authority@ == s.subrange(1, 33)
        &&& r.platform_fee == be_value(s.subrange(33, 41))
    }

    pub fn is_initialized(&self) -> (r: bool)
        ensures
            r == self.is_initialized,
    {
        self.is_initialized
    }

    /// The record that the well-formed bytes `s` hold.
    pub open spec fn decoded(s: Seq<u8>) -> Self {
        choose|r: Self| Self::decodes_to(s, r)
    }

    pub fn pack(&self) -> (r: Vec<u8>)
        ensures
            r@ == self.encoding(),
            r@.len() == STATESIZE,
    {
        let mut out: Vec<u8> = Vec::new();
        write_flag(&mut out, self.is_initialized);
        self.authority.write_to(&mut out);
        write_be_u64(&mut out, self.platform_fee);
        assert(out@ =~= self.encoding());
        out
    }

    pub fn unpack(src: &[u8]) -> (r: Result<PlatformState, MarketError>)
        ensures
            r == (if Self::well_formed(src@) {
                Ok(Self::decoded(src@))
            } else {
                Err(MarketError::MalformedRecord)
            }),
    {
        if src.len() != STATESIZE {
            return Err(MarketError::MalformedRecord);
        }
        let flag = src[0];
        if flag > 1 {
            return Err(MarketError::MalformedRecord);
        }
        let v = PlatformState {
            is_initialized: flag == 1,
            authority: Identity::read_from(src, 1),
            platform_fee: read_be_u64(src, 33),
        };
        proof {
            lemma_platform_decoded(src@, v);
        }
        Ok(v)
    }
}

impl ListEscrowState {
    pub open spec fn encoding(self) -> Seq<u8> {
        self.lister@ + self.mint@ + be_bytes(self.amount) + seq![flag_byte(self.success)]
            + self.successful_buyer@
    }

    /// `s` is a well-formed listing record.
    pub open spec fn well_formed(s: Seq<u8>) -> bool {
        s.len() == LISTESCROWSTATE && s[72] <= 1
    }

    /// `s` is a well-formed listing record holding `r`.
    pub open spec fn decodes_to(s: Seq<u8>, r: Self) -> bool {
        &&& Self::well_formed(s)
        &&& r.lister@ == s.subrange(0, 32)
        &&& r.mint@ == s.subrange(32, 64)
        &&& r.amount == be_value(s.subrange(64, 72))
        &&& r.success == (s[72] == 1)
        &&& r.successful_buyer@ == s.subrange(73, 105)
    }

    /// The record that the well-formed bytes `s` hold.
    pub open spec fn decoded(s: Seq<u8>) -> Self {
        choose|r: Self| Self::decodes_to(s, r)
    }

    pub fn pack(&self) -> (r: Vec<u8>)
        ensures
            r@ == self.encoding(),
            r@.len() == LISTESCROWSTATE,
    {
        let mut out: Vec<u8> = Vec::new();
        self.lister.write_to(&mut out);
        self.mint.write_to(&mut out);
        write_be_u64(&mut out, self.amount);
        write_flag(&mut out, self.success);
        self.successful_buyer.write_to(&mut out);
        assert(out@ =~= self.encoding());
        out
    }

    pub fn unpack(src: &[u8]) -> (r: Result<ListEscrowState, MarketError>)
        ensures
            r == (if Self::well_formed(src@) {
                Ok(Self::decoded(src@))
            } else {
                Err(MarketError::MalformedRecord)
            }),
    {
        if src.len() != LISTESCROWSTATE {
            return Err(MarketError::MalformedRecord);
        }
        let flag = src[72];
        if flag > 1 {
            return Err(MarketError::MalformedRecord);
        }
        let v = ListEscrowState {
            lister: Identity::read_from(src, 0),
            mint: Identity::read_from(src, 32),
            amount: read_be_u64(src, 64),
            success: flag == 1,
            successful_buyer: Identity::read_from(src, 73),
        };
        proof {
            lemma_listing_decoded(src@, v);
        }
        Ok(v)
    }
}

impl BidEscrowState {
    pub open spec fn encoding(self) -> Seq<u8> {
        self.bidder@ + self.mint@ + be_bytes(self.amount)
    }

    /// `s` is a well-formed bid record.
    pub open spec fn well_formed(s: Seq<u8>) -> bool {
        s.len() == BIDESCROWSTATE
    }

    /// `s` is a well-formed bid record holding `r`.
    pub open spec fn decodes_to(s: Seq<u8>, r: Self) -> bool {
        &&& Self::well_formed(s)
        &&& r.bidder@ == s.subrange(0, 32)
        &&& r.mint@ == s.subrange(32, 64)
        &&& r.amount == be_value(s.subrange(64, 72))
    }

    /// The record that the well-formed bytes `s` hold.
    pub open spec fn decoded(s: Seq<u8>) -> Self {
        choose|r: Self| Self::decodes_to(s, r)
    }

    pub fn pack(&self) -> (r: Vec<u8>)
        ensures
            r@ == self.encoding(),
            r@.len() == BIDESCROWSTATE,
    {
        let mut out: Vec<u8> = Vec::new();
        self.bidder.write_to(&mut out);
        self.mint.write_to(&mut out);
        write_be_u64(&mut out, self.amount);
        assert(out@ =~= self.encoding());
        out
    }

    pub fn unpack(src: &[u8]) -> (r: Result<BidEscrowState, MarketError>)
        ensures
            r == (if Self::well_formed(src@) {
                Ok(Self::decoded(src@))
            } else {
                Err(MarketError::MalformedRecord)
            }),
    {
        if src.len() != BIDESCROWSTATE {
            return Err(MarketError::MalformedRecord);
        }
        let v = BidEscrowState {
            bidder: Identity::read_from(src, 0),
            mint: Identity::read_from(src, 32),
            amount: read_be_u64(src, 64),
        };
        proof {
            lemma_bid_decoded(src@, v);
        }
        Ok(v)
    }
}

/// Decoding the encoding of a platform record gives that record back, and
/// nothing else.
pub proof fn lemma_platform_round_trip(r: PlatformState)
    ensures
        PlatformState::well_formed(r.encoding()),
        PlatformState::decodes_to(r.encoding(), r),
        forall|v: PlatformState| PlatformState::decodes_to(r.encoding(), v) ==> v == r,
        PlatformState::decoded(r.encoding()) == r,
{
    let s = r.encoding();
    lemma_be_round_trip(r.platform_fee);
    assert(s.subrange(1, 33) =~= r.authority@);
    assert(s.subrange(33, 41) =~= be_bytes(r.platform_fee));
    assert forall|v: PlatformState| PlatformState::decodes_to(s, v) implies v == r by {
        lemma_identity_ext(v.authority, r.authority);
    }
    lemma_platform_decoded(s, r);
}

/// Decoding the encoding of a listing record gives that record back, and
/// nothing else.
pub proof fn lemma_listing_round_trip(r: ListEscrowState)
    ensures
        ListEscrowState::well_formed(r.encoding()),
        ListEscrowState::decodes_to(r.encoding(), r),
        forall|v: ListEscrowState| ListEscrowState::decodes_to(r.encoding(), v) ==> v == r,
        ListEscrowState::decoded(r.encoding()) == r,
{
    let s = r.encoding();
    lemma_be_round_trip(r.amount);
    assert(s.subrange(0, 32) =~= r.lister@);
    assert(s.subrange(32, 64) =~= r.mint@);
    assert(s.subrange(64, 72) =~= be_bytes(r.amount));
    assert(s.subrange(73, 105) =~= r.successful_buyer@);
    assert forall|v: ListEscrowState| ListEscrowState::decodes_to(s, v) implies v == r by {
        lemma_identity_ext(v.lister, r.lister);
        lemma_identity_ext(v.mint, r.mint);
        lemma_identity_ext(v.successful_buyer, r.successful_buyer);
    }
    lemma_listing_decoded(s, r);
}

/// Decoding the encoding of a bid record gives that record back, and nothing
/// else.
pub proof fn lemma_bid_round_trip(r: BidEscrowState)
    ensures
        BidEscrowState::well_formed(r.encoding()),
        BidEscrowState::decodes_to(r.encoding(), r),
        forall|v: BidEscrowState| BidEscrowState::decodes_to(r.encoding(), v) ==> v == r,
        BidEscrowState::decoded(r.encoding()) == r,
{
    let s = r.encoding();
    lemma_be_round_trip(r.amount);
    assert(s.subrange(0, 32) =~= r.bidder@);
    assert(s.subrange(32, 64) =~= r.mint@);
    assert(s.subrange(64, 72) =~= be_bytes(r.amount));
    assert forall|v: BidEscrowState| BidEscrowState::decodes_to(s, v) implies v == r by {
        lemma_identity_ext(v.bidder, r.bidder);
        lemma_identity_ext(v.mint, r.mint);
    }
    lemma_bid_decoded(s, r);
}

/// Well-formed bytes hold exactly one platform record.
pub proof fn lemma_platform_decoded(s: Seq<u8>, r: PlatformState)
    requires
        PlatformState::decodes_to(s, r),
    ensures
        PlatformState::decoded(s) == r,
{
    let c = PlatformState::decoded(s);
    assert(PlatformState::decodes_to(s, c));
    lemma_identity_ext(c.authority, r.authority);
}

/// Well-formed bytes hold exactly one listing record.
pub proof fn lemma_listing_decoded(s: Seq<u8>, r: ListEscrowState)
    requires
        ListEscrowState::decodes_to(s, r),
    ensures
        ListEscrowState::decoded(s) == r,
{
    let c = ListEscrowState::decoded(s);
    assert(ListEscrowState::decodes_to(s, c));
    lemma_identity_ext(c.lister, r.lister);
    lemma_identity_ext(c.mint, r.mint);
    lemma_identity_ext(c.successful_buyer, r.successful_buyer);
}

/// Well-formed bytes hold exactly one bid record.
pub proof fn lemma_bid_decoded(s: Seq<u8>, r: BidEscrowState)
    requires
        BidEscrowState::decodes_to(s, r),
    ensures
        BidEscrowState::decoded(s) == r,
{
    let c = BidEscrowState::decoded(s);
    assert(BidEscrowState::decodes_to(s, c));
    lemma_identity_ext(c.bidder, r.bidder);
    lemma_identity_ext(c.mint, r.mint);
}

} // verus!
