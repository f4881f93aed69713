//! Properties that relate several transitions.
use vstd::prelude::*;

use crate::accounts::TokenHolding;
use crate::error::MarketError;
use crate::fee::{FEE_DENOMINATOR, fee_of, lemma_fee_bounds};
use crate::identity::Identity;
use crate::plan::{Effect, Record};
use crate::bidding::{AcceptBidAccounts, accept_bid_outcome};
use crate::listing::{AcceptListingAccounts, ListAccounts, accept_listing_outcome, list_outcome};
use crate::processor::{EscrowPdas, PlatformPdas, Programs, check_pdas};
use crate::state::{BidEscrowState, ListEscrowState, PlatformState, lemma_listing_round_trip};

verus! {

/// A listing cannot be opened twice: once a `List` has succeeded, its state
/// account holds the listing record, and a second `List` for the same item
/// and lister, which must name that same account, is refused.
pub proof fn lemma_list_twice_refused(
    a: ListAccounts,
    amount: u64,
    ids: Programs,
    holding: Result<TokenHolding, MarketError>,
    state: Option<(Identity, u8)>,
    vault: Option<(Identity, u8)>,
    again: ListAccounts,
    amount2: u64,
    holding2: Result<TokenHolding, MarketError>,
)
    requires
        list_outcome(a, amount, ids, holding, state, vault) is Ok,
        again.list_state.key == a.list_state.key,
        again.list_state.data@ == (list_outcome(a, amount, ids, holding, state, vault)->Ok_0[4]
            ->Write_record)->Listing_0.encoding(),
    ensures
        list_outcome(a, amount, ids, holding, state, vault)->Ok_0[0] matches Effect::CreateAccount {
            address,
            ..
        } && address == a.list_state.key,
        list_outcome(again, amount2, ids, holding2, state, vault) is Err,
{
    let effects = list_outcome(a, amount, ids, holding, state, vault)->Ok_0;
    let r = (effects[4]->Write_record)->Listing_0;
    assert(r.encoding().len() == 105);
    assert(!again.list_state.vacant());
}

/// A successful `AcceptBid` stores the listing as matched with the bidder at
/// the bid's amount, and the escrowed amount leaves the bid vault exactly
/// once: the fee to the platform vault and the rest to the lister, adding up
/// to the bid.
pub proof fn lemma_accept_bid_settles(
    a: AcceptBidAccounts,
    ids: Programs,
    platform: PlatformPdas,
    bid: EscrowPdas,
    listing: EscrowPdas,
)
    requires
        accept_bid_outcome(a, ids, platform, bid, listing) is Ok,
    ensures
        ({
            let effects = accept_bid_outcome(a, ids, platform, bid, listing)->Ok_0;
            let b = BidEscrowState::decoded(a.bid_state.data@);
            let rate = PlatformState::decoded(a.platform_state.data@).platform_fee;
            &&& effects[0] matches Effect::Write { account, record: Record::Listing(r) }
            &&& effects[0]->Write_account == a.list_state.key
            &&& (effects[0]->Write_record)->Listing_0.success
            &&& (effects[0]->Write_record)->Listing_0.successful_buyer == a.bidder.key
            &&& (effects[0]->Write_record)->Listing_0.amount == b.amount
            &&& effects[1] == Effect::Move {
                from: a.bid_vault.key,
                to: a.platform_vault.key,
                lamports: fee_of(b.amount, rate) as u64,
            }
            &&& effects[2] matches Effect::Move { from, to, lamports }
            &&& effects[2]->Move_from == a.bid_vault.key
            &&& effects[2]->Move_to == a.lister.key
            &&& fee_of(b.amount, rate) + effects[2]->Move_lamports == b.amount
            &&& rate <= FEE_DENOMINATOR ==> 0 <= fee_of(b.amount, rate) <= b.amount
        }),
{
    let rate = PlatformState::decoded(a.platform_state.data@).platform_fee;
    let b = BidEscrowState::decoded(a.bid_state.data@);
    if rate <= FEE_DENOMINATOR {
        lemma_fee_bounds(b.amount, rate);
    }
}

/// A successful `AcceptListing` delivers the item to the buyer's holding,
/// closes the emptied listing vault to the buyer, stores the listing as
/// matched with the buyer, and the buyer's two payments, to the lister and to
/// the platform vault, add up to the asking price; at a zero fee rate the
/// lister receives all of it and the platform vault nothing.
pub proof fn lemma_accept_listing_settles(
    a: AcceptListingAccounts,
    ids: Programs,
    holding: Result<TokenHolding, MarketError>,
    platform: PlatformPdas,
    listing: EscrowPdas,
)
    requires
        accept_listing_outcome(a, ids, holding, platform, listing) is Ok,
    ensures
        ({
            let effects = accept_listing_outcome(a, ids, holding, platform, listing)->Ok_0;
            let l = ListEscrowState::decoded(a.list_state.data@);
            let rate = PlatformState::decoded(a.platform_state.data@).platform_fee;
            &&& effects[0] matches Effect::TransferItem { source, destination, .. }
            &&& effects[0]->TransferItem_source == a.list_vault.key
            &&& effects[0]->TransferItem_destination == a.holding.key
            &&& effects[1] matches Effect::CloseTokenAccount { account, destination, .. }
            &&& effects[1]->CloseTokenAccount_account == a.list_vault.key
            &&& effects[1]->CloseTokenAccount_destination == a.buyer.key
            &&& effects[4] matches Effect::Write { account, record: Record::Listing(r) }
            &&& effects[4]->Write_account == a.list_state.key
            &&& (effects[4]->Write_record)->Listing_0.success
            &&& (effects[4]->Write_record)->Listing_0.successful_buyer == a.buyer.key
            &&& effects[2] matches Effect::Pay { from, to, lamports }
            &&& effects[3] matches Effect::Pay { from, to, lamports }
            &&& effects[2]->Pay_to == a.lister.key
            &&& effects[3]->Pay_to == a.platform_vault.key
            &&& effects[2]->Pay_lamports + effects[3]->Pay_lamports == l.amount
            &&& rate == 0 ==> effects[2]->Pay_lamports == l.amount && effects[3]->Pay_lamports == 0
        }),
{
}

/// A matched listing is terminal: whichever of `AcceptBid` and
/// `AcceptListing` matched it, any later `AcceptBid` or `AcceptListing` on
/// the stored record is refused, and where the signature, account and
/// configuration checks that come first pass, it is refused as already
/// fulfilled.
pub proof fn lemma_matched_listing_refuses_accept(
    r: ListEscrowState,
    a: AcceptBidAccounts,
    ids: Programs,
    platform: PlatformPdas,
    bid: EscrowPdas,
    listing: EscrowPdas,
    b: AcceptListingAccounts,
    holding: Result<TokenHolding, MarketError>,
    listing2: EscrowPdas,
)
    requires
        r.success,
        a.list_state.data@ == r.encoding(),
        b.list_state.data@ == r.encoding(),
    ensures
        accept_bid_outcome(a, ids, platform, bid, listing) is Err,
        accept_listing_outcome(b, ids, holding, platform, listing2) is Err,
        ({
            &&& a.lister.is_signer
            &&& a.mint.owner == ids.token_program
            &&& check_pdas(platform.state, platform.vault, a.platform_state.key, a.platform_vault.key) is Ok
            &&& check_pdas(bid.state, bid.vault, a.bid_state.key, a.bid_vault.key) is Ok
            &&& check_pdas(listing.state, listing.vault, a.list_state.key, a.list_vault.key) is Ok
            &&& PlatformState::well_formed(a.platform_state.data@)
            &&& PlatformState::decoded(a.platform_state.data@).is_initialized
            &&& r.lister == a.lister.key
        }) ==> accept_bid_outcome(a, ids, platform, bid, listing) == Err::<Seq<Effect>, MarketError>(
            MarketError::ListingAlreadyFulfilled,
        ),
        ({
            &&& b.buyer.is_signer
            &&& holding matches Ok(h)
            &&& holding->Ok_0.owner == b.buyer.key
            &&& holding->Ok_0.mint == b.mint.key
            &&& holding->Ok_0.amount == 0
            &&& b.mint.owner == ids.token_program
            &&& check_pdas(platform.state, platform.vault, b.platform_state.key, b.platform_vault.key) is Ok
            &&& check_pdas(listing2.state, listing2.vault, b.list_state.key, b.list_vault.key) is Ok
            &&& b.token_program.key == ids.token_program
            &&& b.system_program.key == ids.system_program
            &&& PlatformState::well_formed(b.platform_state.data@)
            &&& PlatformState::decoded(b.platform_state.data@).is_initialized
            &&& r.lister == b.lister.key
        }) ==> accept_listing_outcome(b, ids, holding, platform, listing2) == Err::<Seq<Effect>, MarketError>(
            MarketError::ListingAlreadyFulfilled,
        ),
{
    lemma_listing_round_trip(r);
}

} // verus!
