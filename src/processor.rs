//! Dispatch of decoded commands: the program's own address and those of the
//! token and system programs, the derived addresses each command's accounts
//! must have, and the handler that plans the transition.
use vstd::prelude::*;

use crate::accounts::{
    AccountView, system_program_id, system_program_key, token_holding, token_program_id,
    token_program_key, token_read,
};
use crate::address::{Part, Role, SeedSet, derive_address, identity_of, pda_of};
use crate::admin::{
    AdminAccounts, InitAccounts, admin_outcome, init_outcome, plan_change_authority,
    plan_change_fee, plan_init,
};
use crate::bidding::{
    AcceptBidAccounts, BidAccounts, RefundAccounts, WithdrawBidAccounts, accept_bid_outcome,
    bid_outcome, plan_accept_bid, plan_bid, plan_refund, plan_withdraw_bid, refund_outcome,
    withdraw_bid_outcome,
};
use crate::error::MarketError;
use crate::identity::Identity;
use crate::listing::{
    AcceptListingAccounts, DeListAccounts, ListAccounts, WithdrawNftAccounts,
    accept_listing_outcome, delist_outcome, list_outcome, plan_accept_listing, plan_delist,
    plan_list, plan_withdraw_nft_on_success, withdraw_nft_outcome,
};
use crate::plan::{Effect, check_pda, match_pda, outcome};
use crate::state::PlatformState;

verus! {

/// The addresses of this program and of the two programs it works with.
#[derive(Clone, Copy, Debug, PartialEq, Eq)]
pub struct Programs {
    pub program_id: Identity,
    pub token_program: Identity,
    pub system_program: Identity,
}

/// The seeds of a platform account.
pub open spec fn platform_seeds(part: Part) -> SeedSet {
    SeedSet::Platform { part }
}

/// The seeds of an escrow account.
pub open spec fn escrow_seeds(mint: Identity, party: Identity, role: Role, part: Part) -> SeedSet {
    SeedSet::Escrow { mint, party, role, part }
}

/// Derived addresses of the platform configuration and vault.
#[derive(Clone, Copy, Debug, PartialEq, Eq)]
pub struct PlatformPdas {
    pub state: Option<(Identity, u8)>,
    pub vault: Option<(Identity, u8)>,
}

/// Derived addresses of one escrow's state and vault.
#[derive(Clone, Copy, Debug, PartialEq, Eq)]
pub struct EscrowPdas {
    pub state: Option<(Identity, u8)>,
    pub vault: Option<(Identity, u8)>,
}

/// Checks that `s` and `v` are at the derived addresses `state` and `vault`.
pub(crate) fn match_pdas(
    state: Option<(Identity, u8)>,
    vault: Option<(Identity, u8)>,
    s: &AccountView,
    v: &AccountView,
) -> (r: Result<u8, MarketError>)
    ensures
        r == check_pdas(state, vault, s.key, v.key),
{
    let n = match match_pda(state, &s.key) {
        Ok(n) => n,
        Err(e) => return Err(e),
    };
    match match_pda(vault, &v.key) {
        Ok(_) => Ok(n),
        Err(e) => Err(e),
    }
}

/// Both accounts are at their derived addresses; the bump seed of the first.
pub open spec fn check_pdas(
    state: Option<(Identity, u8)>,
    vault: Option<(Identity, u8)>,
    s: Identity,
    v: Identity,
) -> Result<u8, MarketError> {
    if check_pda(state, s) is Err {
        check_pda(state, s)
    } else if check_pda(vault, v) is Err {
        Err(check_pda(vault, v)->Err_0)
    } else {
        check_pda(state, s)
    }
}

// ----- Dispatch -----

/// A decoded command with its accounts in their fixed roles.
#[allow(inconsistent_fields)]
#[derive(Clone, Debug)]
pub enum Command {
    Initialize { accounts: InitAccounts, authority: Identity, fee_rate: u64 },
    ChangeAuthority { accounts: AdminAccounts, authority: Identity },
    ChangeFee { accounts: AdminAccounts, fee_rate: u64 },
    List { accounts: ListAccounts, amount: u64 },
    DeList { accounts: DeListAccounts },
    Bid { accounts: BidAccounts, amount: u64 },
    WithdrawBid { accounts: WithdrawBidAccounts },
    AcceptBid { accounts: AcceptBidAccounts },
    WithdrawNFTOnSuccess { accounts: WithdrawNftAccounts },
    AcceptListing { accounts: AcceptListingAccounts },
    RefundUser { accounts: RefundAccounts },
}

/// The addresses of this program, the token program and the system program.
pub open spec fn programs_of(program_id: Identity) -> Programs {
    Programs {
        program_id,
        token_program: identity_of(token_program_key()),
        system_program: identity_of(system_program_key()),
    }
}

fn programs(program_id: &Identity) -> (r: Programs)
    ensures
        r == programs_of(*program_id),
{
    Programs {
        program_id: *program_id,
        token_program: token_program_id(),
        system_program: system_program_id(),
    }
}

/// The derived addresses of the platform accounts.
pub open spec fn platform_pdas_of(program_id: Identity) -> PlatformPdas {
    PlatformPdas {
        state: pda_of(platform_seeds(Part::State), program_id),
        vault: pda_of(platform_seeds(Part::Vault), program_id),
    }
}

/// The derived addresses of an escrow's two accounts.
pub open spec fn escrow_pdas_of(
    mint: Identity,
    party: Identity,
    role: Role,
    program_id: Identity,
) -> EscrowPdas {
    EscrowPdas {
        state: pda_of(escrow_seeds(mint, party, role, Part::State), program_id),
        vault: pda_of(escrow_seeds(mint, party, role, Part::Vault), program_id),
    }
}

fn platform_pdas(program_id: &Identity) -> (r: PlatformPdas)
    ensures
        r == platform_pdas_of(*program_id),
{
    PlatformPdas {
        state: derive_address(&SeedSet::Platform { part: Part::State }, program_id),
        vault: derive_address(&SeedSet::Platform { part: Part::Vault }, program_id),
    }
}

fn escrow_pdas(mint: &Identity, party: &Identity, role: Role, program_id: &Identity) -> (r: EscrowPdas)
    ensures
        r == escrow_pdas_of(*mint, *party, role, *program_id),
{
    EscrowPdas {
        state: derive_address(
            &SeedSet::Escrow { mint: *mint, party: *party, role, part: Part::State },
            program_id,
        ),
        vault: derive_address(
            &SeedSet::Escrow { mint: *mint, party: *party, role, part: Part::Vault },
            program_id,
        ),
    }
}

/// The settlement program: derives the addresses a command's accounts must
/// have, reads the token accounts involved, and plans the transition.
pub struct Processor;

impl Processor {
    /// Creates the platform configuration and vault.
    pub fn process_init_platform(
        a: &InitAccounts,
        authority: Identity,
        fee_rate: u64,
        program_id: &Identity,
    ) -> (r: Result<Vec<Effect>, MarketError>)
        ensures
            outcome(r) == init_outcome(
                *a,
                authority,
                fee_rate,
                programs_of(*program_id),
                platform_pdas_of(*program_id).state,
                platform_pdas_of(*program_id).vault,
            ),
    {
        let ids = programs(program_id);
        let p = platform_pdas(program_id);
        plan_init(a, authority, fee_rate, &ids, p.state, p.vault)
    }

    /// Hands the platform to a new authority.
    pub fn process_change_authority(
        a: &AdminAccounts,
        authority: Identity,
        program_id: &Identity,
    ) -> (r: Result<Vec<Effect>, MarketError>)
        ensures
            outcome(r) == admin_outcome(
                *a,
                platform_pdas_of(*program_id).state,
                PlatformState { authority, ..PlatformState::decoded(a.platform_state.data@) },
            ),
    {
        let p = platform_pdas(program_id);
        plan_change_authority(a, authority, p.state)
    }

    /// Sets the platform fee rate.
    pub fn process_change_fee(
        a: &AdminAccounts,
        fee_rate: u64,
        program_id: &Identity,
    ) -> (r: Result<Vec<Effect>, MarketError>)
        ensures
            outcome(r) == admin_outcome(
                *a,
                platform_pdas_of(*program_id).state,
                PlatformState { platform_fee: fee_rate, ..PlatformState::decoded(a.platform_state.data@) },
            ),
    {
        let p = platform_pdas(program_id);
        plan_change_fee(a, fee_rate, p.state)
    }

    /// Lists one unit of an item at `amount`.
    pub fn process_list(
        a: &ListAccounts,
        amount: u64,
        program_id: &Identity,
    ) -> (r: Result<Vec<Effect>, MarketError>)
        ensures
            outcome(r) == list_outcome(
                *a,
                amount,
                programs_of(*program_id),
                token_read(a.holding.data@),
                escrow_pdas_of(a.mint.key, a.lister.key, Role::List, *program_id).state,
                escrow_pdas_of(a.mint.key, a.lister.key, Role::List, *program_id).vault,
            ),
    {
        let ids = programs(program_id);
        let h = token_holding(a.holding.data.as_slice());
        let e = escrow_pdas(&a.mint.key, &a.lister.key, Role::List, program_id);
        plan_list(a, amount, &ids, h, e.state, e.vault)
    }

    /// Withdraws an unmatched listing.
    pub fn process_delist(
        a: &DeListAccounts,
        program_id: &Identity,
    ) -> (r: Result<Vec<Effect>, MarketError>)
        ensures
            outcome(r) == delist_outcome(
                *a,
                programs_of(*program_id),
                token_read(a.holding.data@),
                escrow_pdas_of(a.mint.key, a.lister.key, Role::List, *program_id).state,
                escrow_pdas_of(a.mint.key, a.lister.key, Role::List, *program_id).vault,
            ),
    {
        let ids = programs(program_id);
        let h = token_holding(a.holding.data.as_slice());
        let e = escrow_pdas(&a.mint.key, &a.lister.key, Role::List, program_id);
        plan_delist(a, &ids, h, e.state, e.vault)
    }

    /// Opens a bid of `amount` on an item.
    pub fn process_bid(
        a: &BidAccounts,
        amount: u64,
        program_id: &Identity,
    ) -> (r: Result<Vec<Effect>, MarketError>)
        ensures
            outcome(r) == bid_outcome(
                *a,
                amount,
                programs_of(*program_id),
                escrow_pdas_of(a.mint.key, a.bidder.key, Role::Bid, *program_id).state,
                escrow_pdas_of(a.mint.key, a.bidder.key, Role::Bid, *program_id).vault,
            ),
    {
        let ids = programs(program_id);
        let e = escrow_pdas(&a.mint.key, &a.bidder.key, Role::Bid, program_id);
        plan_bid(a, amount, &ids, e.state, e.vault)
    }

    /// Withdraws the signer's own bid.
    pub fn process_withdraw_bid(
        a: &WithdrawBidAccounts,
        program_id: &Identity,
    ) -> (r: Result<Vec<Effect>, MarketError>)
        ensures
            outcome(r) == withdraw_bid_outcome(
                *a,
                programs_of(*program_id),
                escrow_pdas_of(a.mint.key, a.bidder.key, Role::Bid, *program_id).state,
                escrow_pdas_of(a.mint.key, a.bidder.key, Role::Bid, *program_id).vault,
            ),
    {
        let ids = programs(program_id);
        let e = escrow_pdas(&a.mint.key, &a.bidder.key, Role::Bid, program_id);
        plan_withdraw_bid(a, &ids, e.state, e.vault)
    }

    /// The lister accepts a bid.
    pub fn process_accept_bid(
        a: &AcceptBidAccounts,
        program_id: &Identity,
    ) -> (r: Result<Vec<Effect>, MarketError>)
        ensures
            outcome(r) == accept_bid_outcome(
                *a,
                programs_of(*program_id),
                platform_pdas_of(*program_id),
                escrow_pdas_of(a.mint.key, a.bidder.key, Role::Bid, *program_id),
                escrow_pdas_of(a.mint.key, a.lister.key, Role::List, *program_id),
            ),
    {
        let ids = programs(program_id);
        let p = platform_pdas(program_id);
        let b = escrow_pdas(&a.mint.key, &a.bidder.key, Role::Bid, program_id);
        let l = escrow_pdas(&a.mint.key, &a.lister.key, Role::List, program_id);
        plan_accept_bid(a, &ids, p, b, l)
    }

    /// The matched buyer collects the item.
    pub fn process_withdraw_nft_on_success(
        a: &WithdrawNftAccounts,
        program_id: &Identity,
    ) -> (r: Result<Vec<Effect>, MarketError>)
        ensures
            outcome(r) == withdraw_nft_outcome(
                *a,
                programs_of(*program_id),
                token_read(a.holding.data@),
                escrow_pdas_of(a.mint.key, a.lister.key, Role::List, *program_id),
            ),
    {
        let ids = programs(program_id);
        let h = token_holding(a.holding.data.as_slice());
        let l = escrow_pdas(&a.mint.key, &a.lister.key, Role::List, program_id);
        plan_withdraw_nft_on_success(a, &ids, h, l)
    }

    /// A buyer takes a listing at its asking price.
    pub fn process_accept_listing(
        a: &AcceptListingAccounts,
        program_id: &Identity,
    ) -> (r: Result<Vec<Effect>, MarketError>)
        ensures
            outcome(r) == accept_listing_outcome(
                *a,
                programs_of(*program_id),
                token_read(a.holding.data@),
                platform_pdas_of(*program_id),
                escrow_pdas_of(a.mint.key, a.lister.key, Role::List, *program_id),
            ),
    {
        let ids = programs(program_id);
        let h = token_holding(a.holding.data.as_slice());
        let p = platform_pdas(program_id);
        let l = escrow_pdas(&a.mint.key, &a.lister.key, Role::List, program_id);
        plan_accept_listing(a, &ids, h, p, l)
    }

    /// The platform authority returns a bid to its bidder.
    pub fn process_refund(
        a: &RefundAccounts,
        program_id: &Identity,
    ) -> (r: Result<Vec<Effect>, MarketError>)
        ensures
            outcome(r) == refund_outcome(
                *a,
                programs_of(*program_id),
                platform_pdas_of(*program_id).state,
                escrow_pdas_of(a.mint.key, a.bidder.key, Role::Bid, *program_id).state,
                escrow_pdas_of(a.mint.key, a.bidder.key, Role::Bid, *program_id).vault,
            ),
    {
        let ids = programs(program_id);
        let p = platform_pdas(program_id);
        let e = escrow_pdas(&a.mint.key, &a.bidder.key, Role::Bid, program_id);
        plan_refund(a, &ids, p.state, e.state, e.vault)
    }

    /// Runs the handler of `command`.
    pub fn process(program_id: &Identity, command: &Command) -> (r: Result<Vec<Effect>, MarketError>)
        ensures
            match command {
                Command::Initialize { accounts, authority, fee_rate } => outcome(r) == init_outcome(
                    *accounts,
                    *authority,
                    *fee_rate,
                    programs_of(*program_id),
                    platform_pdas_of(*program_id).state,
                    platform_pdas_of(*program_id).vault,
                ),
                Command::ChangeAuthority { accounts, authority } => outcome(r) == admin_outcome(
                    *accounts,
                    platform_pdas_of(*program_id).state,
                    PlatformState { authority: *authority, ..PlatformState::decoded(accounts.platform_state.data@) },
                ),
                Command::ChangeFee { accounts, fee_rate } => outcome(r) == admin_outcome(
                    *accounts,
                    platform_pdas_of(*program_id).state,
                    PlatformState { platform_fee: *fee_rate, ..PlatformState::decoded(accounts.platform_state.data@) },
                ),
                Command::List { accounts, amount } => outcome(r) == list_outcome(
                    *accounts,
                    *amount,
                    programs_of(*program_id),
                    token_read(accounts.holding.data@),
                    escrow_pdas_of(accounts.mint.key, accounts.lister.key, Role::List, *program_id).state,
                    escrow_pdas_of(accounts.mint.key, accounts.lister.key, Role::List, *program_id).vault,
                ),
                Command::DeList { accounts } => outcome(r) == delist_outcome(
                    *accounts,
                    programs_of(*program_id),
                    token_read(accounts.holding.data@),
                    escrow_pdas_of(accounts.mint.key, accounts.lister.key, Role::List, *program_id).state,
                    escrow_pdas_of(accounts.mint.key, accounts.lister.key, Role::List, *program_id).vault,
                ),
                Command::Bid { accounts, amount } => outcome(r) == bid_outcome(
                    *accounts,
                    *amount,
                    programs_of(*program_id),
                    escrow_pdas_of(accounts.mint.key, accounts.bidder.key, Role::Bid, *program_id).state,
                    escrow_pdas_of(accounts.mint.key, accounts.bidder.key, Role::Bid, *program_id).vault,
                ),
                Command::WithdrawBid { accounts } => outcome(r) == withdraw_bid_outcome(
                    *accounts,
                    programs_of(*program_id),
                    escrow_pdas_of(accounts.mint.key, accounts.bidder.key, Role::Bid, *program_id).state,
                    escrow_pdas_of(accounts.mint.key, accounts.bidder.key, Role::Bid, *program_id).vault,
                ),
                Command::AcceptBid { accounts } => outcome(r) == accept_bid_outcome(
                    *accounts,
                    programs_of(*program_id),
                    platform_pdas_of(*program_id),
                    escrow_pdas_of(accounts.mint.key, accounts.bidder.key, Role::Bid, *program_id),
                    escrow_pdas_of(accounts.mint.key, accounts.lister.key, Role::List, *program_id),
                ),
                Command::WithdrawNFTOnSuccess { accounts } => outcome(r) == withdraw_nft_outcome(
                    *accounts,
                    programs_of(*program_id),
                    token_read(accounts.holding.data@),
                    escrow_pdas_of(accounts.mint.key, accounts.lister.key, Role::List, *program_id),
                ),
                Command::AcceptListing { accounts } => outcome(r) == accept_listing_outcome(
                    *accounts,
                    programs_of(*program_id),
                    token_read(accounts.holding.data@),
                    platform_pdas_of(*program_id),
                    escrow_pdas_of(accounts.mint.key, accounts.lister.key, Role::List, *program_id),
                ),
                Command::RefundUser { accounts } => outcome(r) == refund_outcome(
                    *accounts,
                    programs_of(*program_id),
                    platform_pdas_of(*program_id).state,
                    escrow_pdas_of(accounts.mint.key, accounts.bidder.key, Role::Bid, *program_id).state,
                    escrow_pdas_of(accounts.mint.key, accounts.bidder.key, Role::Bid, *program_id).vault,
                ),
            },
    {
        match command {
            Command::Initialize { accounts, authority, fee_rate } => {
                Self::process_init_platform(accounts, *authority, *fee_rate, program_id)
            },
            Command::ChangeAuthority { accounts, authority } => {
                Self::process_change_authority(accounts, *authority, program_id)
            },
            Command::ChangeFee { accounts, fee_rate } => {
                Self::process_change_fee(accounts, *fee_rate, program_id)
            },
            Command::List { accounts, amount } => {
                Self::process_list(accounts, *amount, program_id)
            },
            Command::DeList { accounts } => {
                Self::process_delist(accounts, program_id)
            },
            Command::Bid { accounts, amount } => {
                Self::process_bid(accounts, *amount, program_id)
            },
            Command::WithdrawBid { accounts } => {
                Self::process_withdraw_bid(accounts, program_id)
            },
            Command::AcceptBid { accounts } => {
                Self::process_accept_bid(accounts, program_id)
            },
            Command::WithdrawNFTOnSuccess { accounts } => {
                Self::process_withdraw_nft_on_success(accounts, program_id)
            },
            Command::AcceptListing { accounts } => {
                Self::process_accept_listing(accounts, program_id)
            },
            Command::RefundUser { accounts } => {
                Self::process_refund(accounts, program_id)
            },
        }
    }
}

} // verus!
