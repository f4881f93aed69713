//! Bidding on an item, withdrawing or refunding a bid, and accepting one.
use vstd::prelude::*;

use crate::accounts::AccountView;
use crate::address::{Part, Role, SeedSet};
use crate::error::MarketError;
use crate::processor::{EscrowPdas, PlatformPdas, Programs, check_pdas, escrow_seeds, match_pdas};
use crate::fee::{fee_of, platform_fee};
use crate::identity::Identity;
use crate::plan::{Effect, Event, Record, check_pda, match_pda, outcome};
use crate::state::{BIDESCROWSTATE, BidEscrowState, ListEscrowState, PlatformState};

verus! {

// ----- Bid / WithdrawBid / RefundUser -----

/// Accounts of `Bid`.
#[derive(Clone, Debug)]
pub struct BidAccounts {
    pub bidder: AccountView,
    pub mint: AccountView,
    pub bid_state: AccountView,
    pub bid_vault: AccountView,
    pub program: AccountView,
    pub system_program: AccountView,
}

/// Accounts of `WithdrawBid`.
#[derive(Clone, Debug)]
pub struct WithdrawBidAccounts {
    pub bidder: AccountView,
    pub mint: AccountView,
    pub bid_state: AccountView,
    pub bid_vault: AccountView,
    pub program: AccountView,
}

/// Accounts of `RefundUser`.
#[derive(Clone, Debug)]
pub struct RefundAccounts {
    pub authority: AccountView,
    pub mint: AccountView,
    pub bidder: AccountView,
    pub platform_state: AccountView,
    pub bid_state: AccountView,
    pub bid_vault: AccountView,
}

/// The outcome of `Bid`: the checks in order, then both bid accounts
/// created, the amount paid into the vault and the bid stored.
pub open spec fn bid_outcome(
    a: BidAccounts,
    amount: u64,
    ids: Programs,
    state: Option<(Identity, u8)>,
    vault: Option<(Identity, u8)>,
) -> Result<Seq<Effect>, MarketError> {
    if !a.bidder.is_signer {
        Err(MarketError::MissingSignature)
    } else if a.mint.owner != ids.token_program || a.program.key != ids.program_id
        || a.system_program.key != ids.system_program {
        Err(MarketError::IdentityMismatch)
    } else if check_pda(state, a.bid_state.key) is Err {
        Err(check_pda(state, a.bid_state.key)->Err_0)
    } else if !a.bid_state.vacant() {
        Err(MarketError::AccountInUse)
    } else if check_pda(vault, a.bid_vault.key) is Err {
        Err(check_pda(vault, a.bid_vault.key)->Err_0)
    } else if !a.bid_vault.vacant() {
        Err(MarketError::AccountInUse)
    } else {
        Ok(
            seq![
                Effect::CreateAccount {
                    payer: a.bidder.key,
                    address: a.bid_state.key,
                    space: BIDESCROWSTATE as u64,
                    owner: ids.program_id,
                    seeds: escrow_seeds(a.mint.key, a.bidder.key, Role::Bid, Part::State),
                    nonce: check_pda(state, a.bid_state.key)->Ok_0,
                },
                Effect::CreateAccount {
                    payer: a.bidder.key,
                    address: a.bid_vault.key,
                    space: 0,
                    owner: ids.program_id,
                    seeds: escrow_seeds(a.mint.key, a.bidder.key, Role::Bid, Part::Vault),
                    nonce: check_pda(vault, a.bid_vault.key)->Ok_0,
                },
                Effect::Pay { from: a.bidder.key, to: a.bid_vault.key, lamports: amount },
                Effect::Write {
                    account: a.bid_state.key,
                    record: Record::Bid(
                        BidEscrowState { bidder: a.bidder.key, mint: a.mint.key, amount },
                    ),
                },
                Effect::Log(Event::BidPlaced { bidder: a.bidder.key, amount, mint: a.mint.key }),
            ],
        )
    }
}

/// Opens a bid of `amount` on the item, escrowed in the bid vault, given the
/// derived addresses `state` and `vault` of the bid.
pub fn plan_bid(
    a: &BidAccounts,
    amount: u64,
    ids: &Programs,
    state: Option<(Identity, u8)>,
    vault: Option<(Identity, u8)>,
) -> (r: Result<Vec<Effect>, MarketError>)
    ensures
        outcome(r) == bid_outcome(*a, amount, *ids, state, vault),
{
    if !a.bidder.is_signer {
        return Err(MarketError::MissingSignature);
    }
    if !a.mint.owner.same_as(&ids.token_program) || !a.program.key.same_as(&ids.program_id)
        || !a.system_program.key.same_as(&ids.system_program) {
        return Err(MarketError::IdentityMismatch);
    }
    let n1 = match match_pda(state, &a.bid_state.key) {
        Ok(n) => n,
        Err(e) => return Err(e),
    };
    if !a.bid_state.is_vacant() {
        return Err(MarketError::AccountInUse);
    }
    let n2 = match match_pda(vault, &a.bid_vault.key) {
        Ok(n) => n,
        Err(e) => return Err(e),
    };
    if !a.bid_vault.is_vacant() {
        return Err(MarketError::AccountInUse);
    }
    let mut v: Vec<Effect> = Vec::new();
    v.push(
        Effect::CreateAccount {
            payer: a.bidder.key,
            address: a.bid_state.key,
            space: BIDESCROWSTATE as u64,
            owner: ids.program_id,
            seeds: SeedSet::Escrow {
                mint: a.mint.key,
                party: a.bidder.key,
                role: Role::Bid,
                part: Part::State,
            },
            nonce: n1,
        },
    );
    v.push(
        Effect::CreateAccount {
            payer: a.bidder.key,
            address: a.bid_vault.key,
            space: 0,
            owner: ids.program_id,
            seeds: SeedSet::Escrow {
                mint: a.mint.key,
                party: a.bidder.key,
                role: Role::Bid,
                part: Part::Vault,
            },
            nonce: n2,
        },
    );
    v.push(Effect::Pay { from: a.bidder.key, to: a.bid_vault.key, lamports: amount });
    v.push(
        Effect::Write {
            account: a.bid_state.key,
            record: Record::Bid(BidEscrowState { bidder: a.bidder.key, mint: a.mint.key, amount }),
        },
    );
    v.push(Effect::Log(Event::BidPlaced { bidder: a.bidder.key, amount, mint: a.mint.key }));
    assert(v@ =~= bid_outcome(*a, amount, *ids, state, vault)->Ok_0);
    Ok(v)
}

/// The outcome of `WithdrawBid`: the checks in order, then both bid accounts
/// emptied into the bidder's wallet.
pub open spec fn withdraw_bid_outcome(
    a: WithdrawBidAccounts,
    ids: Programs,
    state: Option<(Identity, u8)>,
    vault: Option<(Identity, u8)>,
) -> Result<Seq<Effect>, MarketError> {
    if !a.bidder.is_signer {
        Err(MarketError::MissingSignature)
    } else if a.mint.owner != ids.token_program || a.program.key != ids.program_id {
        Err(MarketError::IdentityMismatch)
    } else if check_pda(state, a.bid_state.key) is Err {
        Err(check_pda(state, a.bid_state.key)->Err_0)
    } else if check_pda(vault, a.bid_vault.key) is Err {
        Err(check_pda(vault, a.bid_vault.key)->Err_0)
    } else if !BidEscrowState::well_formed(a.bid_state.data@) {
        Err(MarketError::MalformedRecord)
    } else {
        Ok(
            seq![
                Effect::Sweep { from: a.bid_state.key, to: a.bidder.key },
                Effect::Sweep { from: a.bid_vault.key, to: a.bidder.key },
                Effect::Log(
                    Event::BidWithdrawn {
                        bidder: a.bidder.key,
                        amount: BidEscrowState::decoded(a.bid_state.data@).amount,
                        mint: a.mint.key,
                    },
                ),
            ],
        )
    }
}

/// Withdraws the bidder's own bid: both bid accounts are emptied into the
/// bidder's wallet.
pub fn plan_withdraw_bid(
    a: &WithdrawBidAccounts,
    ids: &Programs,
    state: Option<(Identity, u8)>,
    vault: Option<(Identity, u8)>,
) -> (r: Result<Vec<Effect>, MarketError>)
    ensures
        outcome(r) == withdraw_bid_outcome(*a, *ids, state, vault),
{
    if !a.bidder.is_signer {
        return Err(MarketError::MissingSignature);
    }
    if !a.mint.owner.same_as(&ids.token_program) || !a.program.key.same_as(&ids.program_id) {
        return Err(MarketError::IdentityMismatch);
    }
    match match_pda(state, &a.bid_state.key) {
        Ok(_) => {},
        Err(e) => return Err(e),
    }
    match match_pda(vault, &a.bid_vault.key) {
        Ok(_) => {},
        Err(e) => return Err(e),
    }
    let bid = match BidEscrowState::unpack(a.bid_state.data.as_slice()) {
        Ok(b) => b,
        Err(e) => return Err(e),
    };
    let mut v: Vec<Effect> = Vec::new();
    v.push(Effect::Sweep { from: a.bid_state.key, to: a.bidder.key });
    v.push(Effect::Sweep { from: a.bid_vault.key, to: a.bidder.key });
    v.push(Effect::Log(Event::BidWithdrawn { bidder: a.bidder.key, amount: bid.amount, mint: a.mint.key }));
    assert(v@ =~= withdraw_bid_outcome(*a, *ids, state, vault)->Ok_0);
    Ok(v)
}

/// The outcome of `RefundUser`: the checks in order, then both bid accounts
/// emptied into the bidder's wallet.
pub open spec fn refund_outcome(
    a: RefundAccounts,
    ids: Programs,
    platform: Option<(Identity, u8)>,
    state: Option<(Identity, u8)>,
    vault: Option<(Identity, u8)>,
) -> Result<Seq<Effect>, MarketError> {
    let cfg = PlatformState::decoded(a.platform_state.data@);
    if !a.authority.is_signer {
        Err(MarketError::MissingSignature)
    } else if a.mint.owner != ids.token_program {
        Err(MarketError::IdentityMismatch)
    } else if check_pda(platform, a.platform_state.key) is Err {
        Err(check_pda(platform, a.platform_state.key)->Err_0)
    } else if !PlatformState::well_formed(a.platform_state.data@) {
        Err(MarketError::MalformedRecord)
    } else if !cfg.is_initialized {
        Err(MarketError::Uninitialized)
    } else if cfg.authority != a.authority.key {
        Err(MarketError::InvalidAuthority)
    } else if check_pda(state, a.bid_state.key) is Err {
        Err(check_pda(state, a.bid_state.key)->Err_0)
    } else if check_pda(vault, a.bid_vault.key) is Err {
        Err(check_pda(vault, a.bid_vault.key)->Err_0)
    } else {
        Ok(
            seq![
                Effect::Sweep { from: a.bid_state.key, to: a.bidder.key },
                Effect::Sweep { from: a.bid_vault.key, to: a.bidder.key },
            ],
        )
    }
}

/// The platform authority returns a bid to its bidder without the bidder's
/// signature, given the derived addresses of the platform configuration and
/// of the bid's two accounts.
pub fn plan_refund(
    a: &RefundAccounts,
    ids: &Programs,
    platform: Option<(Identity, u8)>,
    state: Option<(Identity, u8)>,
    vault: Option<(Identity, u8)>,
) -> (r: Result<Vec<Effect>, MarketError>)
    ensures
        outcome(r) == refund_outcome(*a, *ids, platform, state, vault),
{
    if !a.authority.is_signer {
        return Err(MarketError::MissingSignature);
    }
    if !a.mint.owner.same_as(&ids.token_program) {
        return Err(MarketError::IdentityMismatch);
    }
    match match_pda(platform, &a.platform_state.key) {
        Ok(_) => {},
        Err(e) => return Err(e),
    }
    let cfg = match PlatformState::unpack(a.platform_state.data.as_slice()) {
        Ok(c) => c,
        Err(e) => return Err(e),
    };
    if !cfg.is_initialized {
        return Err(MarketError::Uninitialized);
    }
    if !cfg.authority.same_as(&a.authority.key) {
        return Err(MarketError::InvalidAuthority);
    }
    match match_pda(state, &a.bid_state.key) {
        Ok(_) => {},
        Err(e) => return Err(e),
    }
    match match_pda(vault, &a.bid_vault.key) {
        Ok(_) => {},
        Err(e) => return Err(e),
    }
    let mut v: Vec<Effect> = Vec::new();
    v.push(Effect::Sweep { from: a.bid_state.key, to: a.bidder.key });
    v.push(Effect::Sweep { from: a.bid_vault.key, to: a.bidder.key });
    assert(v@ =~= refund_outcome(*a, *ids, platform, state, vault)->Ok_0);
    Ok(v)
}

/// Accounts of `AcceptBid`.
#[derive(Clone, Debug)]
pub struct AcceptBidAccounts {
    pub lister: AccountView,
    pub mint: AccountView,
    pub bidder: AccountView,
    pub platform_state: AccountView,
    pub platform_vault: AccountView,
    pub bid_state: AccountView,
    pub bid_vault: AccountView,
    pub list_state: AccountView,
    pub list_vault: AccountView,
}

/// The outcome of `AcceptBid`: the checks in order, then the listing marked
/// as matched and the escrowed bid split between platform and lister.
pub open spec fn accept_bid_outcome(
    a: AcceptBidAccounts,
    ids: Programs,
    platform: PlatformPdas,
    bid: EscrowPdas,
    listing: EscrowPdas,
) -> Result<Seq<Effect>, MarketError> {
    let cfg = PlatformState::decoded(a.platform_state.data@);
    let l = ListEscrowState::decoded(a.list_state.data@);
    let b = BidEscrowState::decoded(a.bid_state.data@);
    let fee = fee_of(b.amount, cfg.platform_fee);
    if !a.lister.is_signer {
        Err(MarketError::MissingSignature)
    } else if a.mint.owner != ids.token_program {
        Err(MarketError::IdentityMismatch)
    } else if check_pdas(platform.state, platform.vault, a.platform_state.key, a.platform_vault.key) is Err {
        Err(check_pdas(platform.state, platform.vault, a.platform_state.key, a.platform_vault.key)->Err_0)
    } else if check_pdas(bid.state, bid.vault, a.bid_state.key, a.bid_vault.key) is Err {
        Err(check_pdas(bid.state, bid.vault, a.bid_state.key, a.bid_vault.key)->Err_0)
    } else if check_pdas(listing.state, listing.vault, a.list_state.key, a.list_vault.key) is Err {
        Err(check_pdas(listing.state, listing.vault, a.list_state.key, a.list_vault.key)->Err_0)
    } else if !PlatformState::well_formed(a.platform_state.data@) {
        Err(MarketError::MalformedRecord)
    } else if !cfg.is_initialized {
        Err(MarketError::Uninitialized)
    } else if !ListEscrowState::well_formed(a.list_state.data@) {
        Err(MarketError::MalformedRecord)
    } else if l.lister != a.lister.key {
        Err(MarketError::InvalidAuthority)
    } else if l.success {
        Err(MarketError::ListingAlreadyFulfilled)
    } else if !BidEscrowState::well_formed(a.bid_state.data@) {
        Err(MarketError::MalformedRecord)
    } else if b.bidder != a.bidder.key {
        Err(MarketError::IdentityMismatch)
    } else if fee > b.amount {
        Err(MarketError::InvalidFeeRate)
    } else if a.bid_vault.lamports < b.amount {
        Err(MarketError::InsufficientFunds)
    } else {
        Ok(
            seq![
                Effect::Write {
                    account: a.list_state.key,
                    record: Record::Listing(
                        ListEscrowState {
                            amount: b.amount,
                            success: true,
                            successful_buyer: a.bidder.key,
                            ..l
                        },
                    ),
                },
                Effect::Move { from: a.bid_vault.key, to: a.platform_vault.key, lamports: fee as u64 },
                Effect::Move {
                    from: a.bid_vault.key,
                    to: a.lister.key,
                    lamports: (b.amount - fee) as u64,
                },
                Effect::Sweep { from: a.bid_vault.key, to: a.bidder.key },
                Effect::Sweep { from: a.bid_state.key, to: a.bidder.key },
                Effect::Log(
                    Event::BidAccepted {
                        bidder: a.bidder.key,
                        lister: a.lister.key,
                        amount: b.amount,
                        mint: l.mint,
                    },
                ),
            ],
        )
    }
}

/// The lister accepts a bid: the listing is marked as matched with the
/// bidder at the bid's amount, the escrowed amount is split between the
/// platform vault (the fee) and the lister, and the rest of both bid accounts
/// goes back to the bidder. Takes the derived addresses of the platform, the
/// bid and the listing.
pub fn plan_accept_bid(
    a: &AcceptBidAccounts,
    ids: &Programs,
    platform: PlatformPdas,
    bid: EscrowPdas,
    listing: EscrowPdas,
) -> (r: Result<Vec<Effect>, MarketError>)
    ensures
        outcome(r) == accept_bid_outcome(*a, *ids, platform, bid, listing),
{
    if !a.lister.is_signer {
        return Err(MarketError::MissingSignature);
    }
    if !a.mint.owner.same_as(&ids.token_program) {
        return Err(MarketError::IdentityMismatch);
    }
    match match_pdas(platform.state, platform.vault, &a.platform_state, &a.platform_vault) {
        Ok(_) => {},
        Err(e) => return Err(e),
    }
    match match_pdas(bid.state, bid.vault, &a.bid_state, &a.bid_vault) {
        Ok(_) => {},
        Err(e) => return Err(e),
    }
    match match_pdas(listing.state, listing.vault, &a.list_state, &a.list_vault) {
        Ok(_) => {},
        Err(e) => return Err(e),
    }
    let cfg = match PlatformState::unpack(a.platform_state.data.as_slice()) {
        Ok(c) => c,
        Err(e) => return Err(e),
    };
    if !cfg.is_initialized {
        return Err(MarketError::Uninitialized);
    }
    let l = match ListEscrowState::unpack(a.list_state.data.as_slice()) {
        Ok(l) => l,
        Err(e) => return Err(e),
    };
    if !l.lister.same_as(&a.lister.key) {
        return Err(MarketError::InvalidAuthority);
    }
    if l.success {
        return Err(MarketError::ListingAlreadyFulfilled);
    }
    let b = match BidEscrowState::unpack(a.bid_state.data.as_slice()) {
        Ok(b) => b,
        Err(e) => return Err(e),
    };
    if !b.bidder.same_as(&a.bidder.key) {
        return Err(MarketError::IdentityMismatch);
    }
    let fee = match platform_fee(b.amount, cfg.platform_fee) {
        Some(f) => f,
        None => return Err(MarketError::InvalidFeeRate),
    };
    if a.bid_vault.lamports < b.amount {
        return Err(MarketError::InsufficientFunds);
    }
    let mut v: Vec<Effect> = Vec::new();
    v.push(
        Effect::Write {
            account: a.list_state.key,
            record: Record::Listing(
                ListEscrowState { amount: b.amount, success: true, successful_buyer: a.bidder.key, ..l },
            ),
        },
    );
    v.push(Effect::Move { from: a.bid_vault.key, to: a.platform_vault.key, lamports: fee });
    v.push(Effect::Move { from: a.bid_vault.key, to: a.lister.key, lamports: b.amount - fee });
    v.push(Effect::Sweep { from: a.bid_vault.key, to: a.bidder.key });
    v.push(Effect::Sweep { from: a.bid_state.key, to: a.bidder.key });
    v.push(
        Effect::Log(
            Event::BidAccepted { bidder: a.bidder.key, lister: a.lister.key, amount: b.amount, mint: l.mint },
        ),
    );
    assert(v@ =~= accept_bid_outcome(*a, *ids, platform, bid, listing)->Ok_0);
    Ok(v)
}

} // verus!
