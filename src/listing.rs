//! Listing an item, withdrawing the listing, selling it outright, and
//! delivering it to the matched buyer.
use vstd::prelude::*;

use crate::accounts::{AccountView, TOKEN_ACCOUNT_LEN, TokenHolding};
use crate::address::{Part, Role, SeedSet};
use crate::error::MarketError;
use crate::processor::{EscrowPdas, PlatformPdas, Programs, check_pdas, escrow_seeds, match_pdas};
use crate::fee::{fee_of, platform_fee};
use crate::identity::{Identity, zero_identity};
use crate::plan::{Effect, Event, Record, check_pda, match_pda, outcome};
use crate::state::{LISTESCROWSTATE, ListEscrowState, PlatformState};

verus! {

// ----- List / DeList -----

/// Accounts of `List`.
#[derive(Clone, Debug)]
pub struct ListAccounts {
    pub lister: AccountView,
    pub holding: AccountView,
    pub mint: AccountView,
    pub list_state: AccountView,
    pub list_vault: AccountView,
    pub program: AccountView,
    pub token_program: AccountView,
    pub system_program: AccountView,
}

/// Accounts of `DeList`.
#[derive(Clone, Debug)]
pub struct DeListAccounts {
    pub lister: AccountView,
    pub holding: AccountView,
    pub mint: AccountView,
    pub list_state: AccountView,
    pub list_vault: AccountView,
    pub program: AccountView,
    pub token_program: AccountView,
}

/// The outcome of `List`: the checks in order, then both escrow accounts
/// created, the item moved into the vault and the listing stored.
pub open spec fn list_outcome(
    a: ListAccounts,
    amount: u64,
    ids: Programs,
    holding: Result<TokenHolding, MarketError>,
    state: Option<(Identity, u8)>,
    vault: Option<(Identity, u8)>,
) -> Result<Seq<Effect>, MarketError> {
    if !a.lister.is_signer {
        Err(MarketError::MissingSignature)
    } else if holding is Err {
        Err(holding->Err_0)
    } else if holding->Ok_0.owner != a.lister.key || a.mint.owner != ids.token_program
        || holding->Ok_0.mint != a.mint.key || a.program.key != ids.program_id
        || a.token_program.key != ids.token_program || a.system_program.key
        != ids.system_program {
        Err(MarketError::IdentityMismatch)
    } else if check_pda(state, a.list_state.key) is Err {
        Err(check_pda(state, a.list_state.key)->Err_0)
    } else if !a.list_state.vacant() {
        Err(MarketError::AccountInUse)
    } else if check_pda(vault, a.list_vault.key) is Err {
        Err(check_pda(vault, a.list_vault.key)->Err_0)
    } else if !a.list_vault.vacant() {
        Err(MarketError::AccountInUse)
    } else {
        Ok(
            seq![
                Effect::CreateAccount {
                    payer: a.lister.key,
                    address: a.list_state.key,
                    space: LISTESCROWSTATE as u64,
                    owner: ids.program_id,
                    seeds: escrow_seeds(a.mint.key, a.lister.key, Role::List, Part::State),
                    nonce: check_pda(state, a.list_state.key)->Ok_0,
                },
                Effect::CreateAccount {
                    payer: a.lister.key,
                    address: a.list_vault.key,
                    space: TOKEN_ACCOUNT_LEN as u64,
                    owner: ids.token_program,
                    seeds: escrow_seeds(a.mint.key, a.lister.key, Role::List, Part::Vault),
                    nonce: check_pda(vault, a.list_vault.key)->Ok_0,
                },
                Effect::InitializeTokenAccount {
                    account: a.list_vault.key,
                    mint: a.mint.key,
                    authority: a.list_state.key,
                },
                Effect::TransferItem {
                    source: a.holding.key,
                    mint: a.mint.key,
                    destination: a.list_vault.key,
                    authority: a.lister.key,
                    signer: None,
                    checked: true,
                },
                Effect::Write {
                    account: a.list_state.key,
                    record: Record::Listing(
                        ListEscrowState {
                            lister: a.lister.key,
                            mint: a.mint.key,
                            amount,
                            success: false,
                            successful_buyer: zero_identity(),
                        },
                    ),
                },
                Effect::Log(Event::Listed { lister: a.lister.key, amount, mint: a.mint.key }),
            ],
        )
    }
}

/// Puts one unit of the item in escrow at asking price `amount`, given what
/// the token program reads from the lister's holding and the derived
/// addresses `state` and `vault` of the listing.
pub fn plan_list(
    a: &ListAccounts,
    amount: u64,
    ids: &Programs,
    holding: Result<TokenHolding, MarketError>,
    state: Option<(Identity, u8)>,
    vault: Option<(Identity, u8)>,
) -> (r: Result<Vec<Effect>, MarketError>)
    ensures
        outcome(r) == list_outcome(*a, amount, *ids, holding, state, vault),
{
    if !a.lister.is_signer {
        return Err(MarketError::MissingSignature);
    }
    let h = match holding {
        Ok(h) => h,
        Err(e) => return Err(e),
    };
    if !h.owner.same_as(&a.lister.key) || !a.mint.owner.same_as(&ids.token_program)
        || !h.mint.same_as(&a.mint.key) || !a.program.key.same_as(&ids.program_id)
        || !a.token_program.key.same_as(&ids.token_program) || !a.system_program.key.same_as(
        &ids.system_program,
    ) {
        return Err(MarketError::IdentityMismatch);
    }
    let n1 = match match_pda(state, &a.list_state.key) {
        Ok(n) => n,
        Err(e) => return Err(e),
    };
    if !a.list_state.is_vacant() {
        return Err(MarketError::AccountInUse);
    }
    let n2 = match match_pda(vault, &a.list_vault.key) {
        Ok(n) => n,
        Err(e) => return Err(e),
    };
    if !a.list_vault.is_vacant() {
        return Err(MarketError::AccountInUse);
    }
    let mut v: Vec<Effect> = Vec::new();
    v.push(
        Effect::CreateAccount {
            payer: a.lister.key,
            address: a.list_state.key,
            space: LISTESCROWSTATE as u64,
            owner: ids.program_id,
            seeds: SeedSet::Escrow {
                mint: a.mint.key,
                party: a.lister.key,
                role: Role::List,
                part: Part::State,
            },
            nonce: n1,
        },
    );
    v.push(
        Effect::CreateAccount {
            payer: a.lister.key,
            address: a.list_vault.key,
            space: TOKEN_ACCOUNT_LEN as u64,
            owner: ids.token_program,
            seeds: SeedSet::Escrow {
                mint: a.mint.key,
                party: a.lister.key,
                role: Role::List,
                part: Part::Vault,
            },
            nonce: n2,
        },
    );
    v.push(
        Effect::InitializeTokenAccount {
            account: a.list_vault.key,
            mint: a.mint.key,
            authority: a.list_state.key,
        },
    );
    v.push(
        Effect::TransferItem {
            source: a.holding.key,
            mint: a.mint.key,
            destination: a.list_vault.key,
            authority: a.lister.key,
            signer: None,
            checked: true,
        },
    );
    v.push(
        Effect::Write {
            account: a.list_state.key,
            record: Record::Listing(
                ListEscrowState {
                    lister: a.lister.key,
                    mint: a.mint.key,
                    amount,
                    success: false,
                    successful_buyer: Identity::zero(),
                },
            ),
        },
    );
    v.push(Effect::Log(Event::Listed { lister: a.lister.key, amount, mint: a.mint.key }));
    assert(v@ =~= list_outcome(*a, amount, *ids, holding, state, vault)->Ok_0);
    Ok(v)
}

/// The outcome of `DeList`: the checks in order, then the item returned and
/// the listing accounts closed to the lister.
pub open spec fn delist_outcome(
    a: DeListAccounts,
    ids: Programs,
    holding: Result<TokenHolding, MarketError>,
    state: Option<(Identity, u8)>,
    vault: Option<(Identity, u8)>,
) -> Result<Seq<Effect>, MarketError> {
    let listing = ListEscrowState::decoded(a.list_state.data@);
    let state_seeds = escrow_seeds(a.mint.key, a.lister.key, Role::List, Part::State);
    if !a.lister.is_signer {
        Err(MarketError::MissingSignature)
    } else if holding is Err {
        Err(holding->Err_0)
    } else if holding->Ok_0.owner != a.lister.key || a.mint.owner != ids.token_program
        || a.program.key != ids.program_id || a.token_program.key != ids.token_program {
        Err(MarketError::IdentityMismatch)
    } else if check_pda(state, a.list_state.key) is Err {
        Err(check_pda(state, a.list_state.key)->Err_0)
    } else if check_pda(vault, a.list_vault.key) is Err {
        Err(check_pda(vault, a.list_vault.key)->Err_0)
    } else if !ListEscrowState::well_formed(a.list_state.data@) {
        Err(MarketError::MalformedRecord)
    } else if listing.success {
        Err(MarketError::ListingAlreadyFulfilled)
    } else {
        Ok(
            seq![
                Effect::TransferItem {
                    source: a.list_vault.key,
                    mint: a.mint.key,
                    destination: a.holding.key,
                    authority: a.list_state.key,
                    signer: Some((state_seeds, check_pda(state, a.list_state.key)->Ok_0)),
                    checked: false,
                },
                Effect::CloseTokenAccount {
                    account: a.list_vault.key,
                    destination: a.list_state.key,
                    authority: a.list_state.key,
                    seeds: state_seeds,
                    nonce: check_pda(state, a.list_state.key)->Ok_0,
                },
                Effect::Sweep { from: a.list_state.key, to: a.lister.key },
                Effect::Log(
                    Event::Delisted { lister: a.lister.key, amount: listing.amount, mint: a.mint.key },
                ),
            ],
        )
    }
}

/// Withdraws an unmatched listing: the item goes back to the lister's
/// holding and both escrow accounts are closed to the lister.
pub fn plan_delist(
    a: &DeListAccounts,
    ids: &Programs,
    holding: Result<TokenHolding, MarketError>,
    state: Option<(Identity, u8)>,
    vault: Option<(Identity, u8)>,
) -> (r: Result<Vec<Effect>, MarketError>)
    ensures
        outcome(r) == delist_outcome(*a, *ids, holding, state, vault),
{
    if !a.lister.is_signer {
        return Err(MarketError::MissingSignature);
    }
    let h = match holding {
        Ok(h) => h,
        Err(e) => return Err(e),
    };
    if !h.owner.same_as(&a.lister.key) || !a.mint.owner.same_as(&ids.token_program)
        || !a.program.key.same_as(&ids.program_id) || !a.token_program.key.same_as(
        &ids.token_program,
    ) {
        return Err(MarketError::IdentityMismatch);
    }
    let n1 = match match_pda(state, &a.list_state.key) {
        Ok(n) => n,
        Err(e) => return Err(e),
    };
    match match_pda(vault, &a.list_vault.key) {
        Ok(_) => {},
        Err(e) => return Err(e),
    }
    let listing = match ListEscrowState::unpack(a.list_state.data.as_slice()) {
        Ok(l) => l,
        Err(e) => return Err(e),
    };
    if listing.success {
        return Err(MarketError::ListingAlreadyFulfilled);
    }
    let seeds = SeedSet::Escrow {
        mint: a.mint.key,
        party: a.lister.key,
        role: Role::List,
        part: Part::State,
    };
    let mut v: Vec<Effect> = Vec::new();
    v.push(
        Effect::TransferItem {
            source: a.list_vault.key,
            mint: a.mint.key,
            destination: a.holding.key,
            authority: a.list_state.key,
            signer: Some((seeds, n1)),
            checked: false,
        },
    );
    v.push(
        Effect::CloseTokenAccount {
            account: a.list_vault.key,
            destination: a.list_state.key,
            authority: a.list_state.key,
            seeds,
            nonce: n1,
        },
    );
    v.push(Effect::Sweep { from: a.list_state.key, to: a.lister.key });
    v.push(Effect::Log(Event::Delisted { lister: a.lister.key, amount: listing.amount, mint: a.mint.key }));
    assert(v@ =~= delist_outcome(*a, *ids, holding, state, vault)->Ok_0);
    Ok(v)
}

/// Accounts of `WithdrawNFTOnSuccess`.
#[derive(Clone, Debug)]
pub struct WithdrawNftAccounts {
    pub buyer: AccountView,
    pub holding: AccountView,
    pub mint: AccountView,
    pub lister: AccountView,
    pub list_state: AccountView,
    pub list_vault: AccountView,
    pub token_program: AccountView,
}

/// Accounts of `AcceptListing`.
#[derive(Clone, Debug)]
pub struct AcceptListingAccounts {
    pub buyer: AccountView,
    pub holding: AccountView,
    pub mint: AccountView,
    pub lister: AccountView,
    pub platform_state: AccountView,
    pub platform_vault: AccountView,
    pub list_state: AccountView,
    pub list_vault: AccountView,
    pub token_program: AccountView,
    pub system_program: AccountView,
}

/// The outcome of `WithdrawNFTOnSuccess`: the checks in order, then the item
/// delivered to the buyer and the listing accounts closed to the lister.
pub open spec fn withdraw_nft_outcome(
    a: WithdrawNftAccounts,
    ids: Programs,
    holding: Result<TokenHolding, MarketError>,
    listing: EscrowPdas,
) -> Result<Seq<Effect>, MarketError> {
    let l = ListEscrowState::decoded(a.list_state.data@);
    let seeds = escrow_seeds(a.mint.key, a.lister.key, Role::List, Part::State);
    let n = check_pdas(listing.state, listing.vault, a.list_state.key, a.list_vault.key);
    if !a.buyer.is_signer {
        Err(MarketError::MissingSignature)
    } else if holding is Err {
        Err(holding->Err_0)
    } else if holding->Ok_0.owner != a.buyer.key || a.mint.owner != ids.token_program
        || holding->Ok_0.mint != a.mint.key {
        Err(MarketError::IdentityMismatch)
    } else if n is Err {
        Err(n->Err_0)
    } else if a.token_program.key != ids.token_program {
        Err(MarketError::IdentityMismatch)
    } else if !ListEscrowState::well_formed(a.list_state.data@) {
        Err(MarketError::MalformedRecord)
    } else if l.lister != a.lister.key {
        Err(MarketError::IdentityMismatch)
    } else if !l.success {
        Err(MarketError::ListingNotFulfilled)
    } else if l.successful_buyer != a.buyer.key {
        Err(MarketError::InvalidAuthority)
    } else {
        Ok(
            seq![
                Effect::TransferItem {
                    source: a.list_vault.key,
                    mint: a.mint.key,
                    destination: a.holding.key,
                    authority: a.list_state.key,
                    signer: Some((seeds, n->Ok_0)),
                    checked: true,
                },
                Effect::CloseTokenAccount {
                    account: a.list_vault.key,
                    destination: a.list_state.key,
                    authority: a.list_state.key,
                    seeds,
                    nonce: n->Ok_0,
                },
                Effect::Sweep { from: a.list_state.key, to: a.lister.key },
            ],
        )
    }
}

/// The matched buyer collects the item: it moves from the listing vault to
/// the buyer's holding, and both listing accounts are closed to the lister.
pub fn plan_withdraw_nft_on_success(
    a: &WithdrawNftAccounts,
    ids: &Programs,
    holding: Result<TokenHolding, MarketError>,
    listing: EscrowPdas,
) -> (r: Result<Vec<Effect>, MarketError>)
    ensures
        outcome(r) == withdraw_nft_outcome(*a, *ids, holding, listing),
{
    if !a.buyer.is_signer {
        return Err(MarketError::MissingSignature);
    }
    let h = match holding {
        Ok(h) => h,
        Err(e) => return Err(e),
    };
    if !h.owner.same_as(&a.buyer.key) || !a.mint.owner.same_as(&ids.token_program)
        || !h.mint.same_as(&a.mint.key) {
        return Err(MarketError::IdentityMismatch);
    }
    let n = match match_pdas(listing.state, listing.vault, &a.list_state, &a.list_vault) {
        Ok(n) => n,
        Err(e) => return Err(e),
    };
    if !a.token_program.key.same_as(&ids.token_program) {
        return Err(MarketError::IdentityMismatch);
    }
    let l = match ListEscrowState::unpack(a.list_state.data.as_slice()) {
        Ok(l) => l,
        Err(e) => return Err(e),
    };
    if !l.lister.same_as(&a.lister.key) {
        return Err(MarketError::IdentityMismatch);
    }
    if !l.success {
        return Err(MarketError::ListingNotFulfilled);
    }
    if !l.successful_buyer.same_as(&a.buyer.key) {
        return Err(MarketError::InvalidAuthority);
    }
    let seeds = SeedSet::Escrow {
        mint: a.mint.key,
        party: a.lister.key,
        role: Role::List,
        part: Part::State,
    };
    let mut v: Vec<Effect> = Vec::new();
    v.push(
        Effect::TransferItem {
            source: a.list_vault.key,
            mint: a.mint.key,
            destination: a.holding.key,
            authority: a.list_state.key,
            signer: Some((seeds, n)),
            checked: true,
        },
    );
    v.push(
        Effect::CloseTokenAccount {
            account: a.list_vault.key,
            destination: a.list_state.key,
            authority: a.list_state.key,
            seeds,
            nonce: n,
        },
    );
    v.push(Effect::Sweep { from: a.list_state.key, to: a.lister.key });
    assert(v@ =~= withdraw_nft_outcome(*a, *ids, holding, listing)->Ok_0);
    Ok(v)
}

/// The outcome of `AcceptListing`: the checks in order, then the item
/// delivered, the listing vault closed to the buyer, the price paid, and the
/// listing state closed to the lister.
pub open spec fn accept_listing_outcome(
    a: AcceptListingAccounts,
    ids: Programs,
    holding: Result<TokenHolding, MarketError>,
    platform: PlatformPdas,
    listing: EscrowPdas,
) -> Result<Seq<Effect>, MarketError> {
    let cfg = PlatformState::decoded(a.platform_state.data@);
    let l = ListEscrowState::decoded(a.list_state.data@);
    let fee = fee_of(l.amount, cfg.platform_fee);
    let seeds = escrow_seeds(a.mint.key, a.lister.key, Role::List, Part::State);
    let n = check_pdas(listing.state, listing.vault, a.list_state.key, a.list_vault.key);
    if !a.buyer.is_signer {
        Err(MarketError::MissingSignature)
    } else if holding is Err {
        Err(holding->Err_0)
    } else if holding->Ok_0.owner != a.buyer.key || a.mint.owner != ids.token_program
        || holding->Ok_0.mint != a.mint.key {
        Err(MarketError::IdentityMismatch)
    } else if holding->Ok_0.amount != 0 {
        Err(MarketError::ItemAlreadyHeld)
  } else if check_pdas(platform.state, platform.vault, a.platform_state.key, a.platform_vault.key) is Err {
        Err(check_pdas(platform.state, platform.vault, a.platform_state.key, a.platform_vault.key)->Err_0)
    } else if n is Err {
        Err(n->Err_0)
    } else if a.token_program.key != ids.token_program || a.system_program.key != ids.system_program {
        Err(MarketError::IdentityMismatch)
    } else if !PlatformState::well_formed(a.platform_state.data@) {
        Err(MarketError::MalformedRecord)
    } else if !cfg.is_initialized {
        Err(MarketError::Uninitialized)
    } else if !ListEscrowState::well_formed(a.list_state.data@) {
        Err(MarketError::MalformedRecord)
    } else if l.lister != a.lister.key {
        Err(MarketError::IdentityMismatch)
    } else if l.success {
        Err(MarketError::ListingAlreadyFulfilled)
    } else if fee > l.amount {
        Err(MarketError::InvalidFeeRate)
    } else {
        Ok(
            seq![
                Effect::TransferItem {
                    source: a.list_vault.key,
                    mint: a.mint.key,
                    destination: a.holding.key,
                    authority: a.list_state.key,
                    signer: Some((seeds, n->Ok_0)),
                    checked: true,
                },
                Effect::CloseTokenAccount {
                    account: a.list_vault.key,
                    destination: a.buyer.key,
                    authority: a.list_state.key,
                    seeds,
                    nonce: n->Ok_0,
                },
                Effect::Pay { from: a.buyer.key, to: a.lister.key, lamports: (l.amount - fee) as u64 },
                Effect::Pay { from: a.buyer.key, to: a.platform_vault.key, lamports: fee as u64 },
                Effect::Write {
                    account: a.list_state.key,
                    record: Record::Listing(
                        ListEscrowState { success: true, successful_buyer: a.buyer.key, ..l },
                    ),
                },
                Effect::Sweep { from: a.list_state.key, to: a.lister.key },
                Effect::Log(
                    Event::ListingAccepted {
                        buyer: a.buyer.key,
                        lister: a.lister.key,
                        amount: l.amount,
                        mint: a.mint.key,
                    },
                ),
            ],
        )
    }
}

/// A buyer who holds none of the item yet takes the listing at its asking
/// price with no bid: the item goes to the buyer's holding at once and the
/// emptied listing vault is closed to the buyer; the buyer pays the lister
/// the price less the fee and the platform vault the fee; the listing is
/// marked as matched with the buyer and its state account closed to the
/// lister.
pub fn plan_accept_listing(
    a: &AcceptListingAccounts,
    ids: &Programs,
    holding: Result<TokenHolding, MarketError>,
    platform: PlatformPdas,
    listing: EscrowPdas,
) -> (r: Result<Vec<Effect>, MarketError>)
    ensures
        outcome(r) == accept_listing_outcome(*a, *ids, holding, platform, listing),
{
    if !a.buyer.is_signer {
        return Err(MarketError::MissingSignature);
    }
    let h = match holding {
        Ok(h) => h,
        Err(e) => return Err(e),
    };
    if !h.owner.same_as(&a.buyer.key) || !a.mint.owner.same_as(&ids.token_program)
        || !h.mint.same_as(&a.mint.key) {
        return Err(MarketError::IdentityMismatch);
    }
    if h.amount != 0 {
        return Err(MarketError::ItemAlreadyHeld);
    }
    match match_pdas(platform.state, platform.vault, &a.platform_state, &a.platform_vault) {
        Ok(_) => {},
        Err(e) => return Err(e),
    }
    let n = match match_pdas(listing.state, listing.vault, &a.list_state, &a.list_vault) {
        Ok(n) => n,
        Err(e) => return Err(e),
    };
    if !a.token_program.key.same_as(&ids.token_program) || !a.system_program.key.same_as(
        &ids.system_program,
    ) {
        return Err(MarketError::IdentityMismatch);
    }
    let cfg = match PlatformState::unpack(a.platform_state.data.as_slice()) {
        Ok(c) => c,
        Err(e) => return Err(e),
    };
    if !cfg.is_initialized {
        return Err(MarketError::Uninitialized);
    }
    let l = match ListEscrowState::unpack(a.list_state.data.as_slice()) {
        Ok(l) => l,
        Err(e) => return Err(e),
    };
    if !l.lister.same_as(&a.lister.key) {
        return Err(MarketError::IdentityMismatch);
    }
    if l.success {
        return Err(MarketError::ListingAlreadyFulfilled);
    }
    let fee = match platform_fee(l.amount, cfg.platform_fee) {
        Some(f) => f,
        None => return Err(MarketError::InvalidFeeRate),
    };
    let seeds = SeedSet::Escrow {
        mint: a.mint.key,
        party: a.lister.key,
        role: Role::List,
        part: Part::State,
    };
    let mut v: Vec<Effect> = Vec::new();
    v.push(
        Effect::TransferItem {
            source: a.list_vault.key,
            mint: a.mint.key,
            destination: a.holding.key,
            authority: a.list_state.key,
            signer: Some((seeds, n)),
            checked: true,
        },
    );
    v.push(
        Effect::CloseTokenAccount {
            account: a.list_vault.key,
            destination: a.buyer.key,
            authority: a.list_state.key,
            seeds,
            nonce: n,
        },
    );
    v.push(Effect::Pay { from: a.buyer.key, to: a.lister.key, lamports: l.amount - fee });
    v.push(Effect::Pay { from: a.buyer.key, to: a.platform_vault.key, lamports: fee });
    v.push(
        Effect::Write {
            account: a.list_state.key,
            record: Record::Listing(ListEscrowState { success: true, successful_buyer: a.buyer.key, ..l }),
        },
    );
    v.push(Effect::Sweep { from: a.list_state.key, to: a.lister.key });
    v.push(
        Effect::Log(
            Event::ListingAccepted {
                buyer: a.buyer.key,
                lister: a.lister.key,
                amount: l.amount,
                mint: a.mint.key,
            },
        ),
    );
    assert(v@ =~= accept_listing_outcome(*a, *ids, holding, platform, listing)->Ok_0);
    Ok(v)
}

} // verus!
