use nft_escrow::accounts::{system_program_id, token_holding, token_program_id, AccountView, TokenHolding};
use nft_escrow::address::{derive_address, Part, Role, SeedSet};
use nft_escrow::error::{ErrorKind, MarketError};
use nft_escrow::identity::Identity;
use nft_escrow::plan::{Effect, Event, Record};
use nft_escrow::admin::{AdminAccounts, InitAccounts};
use nft_escrow::bidding::{AcceptBidAccounts, BidAccounts, RefundAccounts, WithdrawBidAccounts};
use nft_escrow::listing::{AcceptListingAccounts, DeListAccounts, ListAccounts, WithdrawNftAccounts};
use nft_escrow::processor::{Command, Processor};
use nft_escrow::state::{BidEscrowState, ListEscrowState, PlatformState};

fn id(b: u8) -> Identity {
    Identity::from_array([b; 32])
}

fn program() -> Identity {
    id(200)
}

fn plain(key: Identity) -> AccountView {
    AccountView { key, is_signer: false, owner: system_program_id(), lamports: 0, data: vec![] }
}

fn wallet(key: Identity) -> AccountView {
    AccountView { key, is_signer: true, owner: system_program_id(), lamports: 100_000_000_000, data: vec![] }
}

fn mint_account(key: Identity) -> AccountView {
    AccountView { key, is_signer: false, owner: token_program_id(), lamports: 1_000_000, data: vec![] }
}

fn holding_bytes(mint: Identity, owner: Identity) -> Vec<u8> {
    let mut d = vec![0u8; 165];
    d[0..32].copy_from_slice(&mint.to_array());
    d[32..64].copy_from_slice(&owner.to_array());
    d[108] = 1;
    d
}

fn holding(key: Identity, mint: Identity, owner: Identity) -> AccountView {
    AccountView { key, is_signer: false, owner: token_program_id(), lamports: 2_039_280, data: holding_bytes(mint, owner) }
}

fn escrow(mint: Identity, party: Identity, role: Role, part: Part) -> Identity {
    derive_address(&SeedSet::Escrow { mint, party, role, part }, &program()).unwrap().0
}

fn platform(part: Part) -> Identity {
    derive_address(&SeedSet::Platform { part }, &program()).unwrap().0
}

fn stored(key: Identity, data: Vec<u8>, lamports: u64) -> AccountView {
    AccountView { key, is_signer: false, owner: program(), lamports, data }
}

fn written(effects: &[Effect], account: Identity) -> Vec<u8> {
    for e in effects {
        if let Effect::Write { account: a, record } = e {
            if *a == account {
                return record.pack();
            }
        }
    }
    panic!("no record written");
}

fn platform_record(fee: u64, authority: Identity) -> Vec<u8> {
    PlatformState { is_initialized: true, authority, platform_fee: fee }.pack()
}

fn list_accounts(mint: Identity, lister: Identity) -> ListAccounts {
    ListAccounts {
        lister: wallet(lister),
        holding: holding(id(90), mint, lister),
        mint: mint_account(mint),
        list_state: plain(escrow(mint, lister, Role::List, Part::State)),
        list_vault: plain(escrow(mint, lister, Role::List, Part::Vault)),
        program: plain(program()),
        token_program: plain(token_program_id()),
        system_program: plain(system_program_id()),
    }
}

fn bid_accounts(mint: Identity, bidder: Identity) -> BidAccounts {
    BidAccounts {
        bidder: wallet(bidder),
        mint: mint_account(mint),
        bid_state: plain(escrow(mint, bidder, Role::Bid, Part::State)),
        bid_vault: plain(escrow(mint, bidder, Role::Bid, Part::Vault)),
        program: plain(program()),
        system_program: plain(system_program_id()),
    }
}

fn accept_bid_accounts(mint: Identity, lister: Identity, bidder: Identity, cfg: Vec<u8>, listing: Vec<u8>, bid: Vec<u8>, bid_vault_lamports: u64) -> AcceptBidAccounts {
    AcceptBidAccounts {
        lister: wallet(lister),
        mint: mint_account(mint),
        bidder: plain(bidder),
        platform_state: stored(platform(Part::State), cfg, 1_000_000),
        platform_vault: stored(platform(Part::Vault), vec![], 890_880),
        bid_state: stored(escrow(mint, bidder, Role::Bid, Part::State), bid, 1_392_000),
        bid_vault: stored(escrow(mint, bidder, Role::Bid, Part::Vault), vec![], bid_vault_lamports),
        list_state: stored(escrow(mint, lister, Role::List, Part::State), listing, 1_620_720),
        list_vault: AccountView { key: escrow(mint, lister, Role::List, Part::Vault), is_signer: false, owner: token_program_id(), lamports: 2_039_280, data: vec![] },
    }
}

fn accept_listing_accounts(mint: Identity, lister: Identity, buyer: Identity, cfg: Vec<u8>, listing: Vec<u8>) -> AcceptListingAccounts {
    AcceptListingAccounts {
        buyer: wallet(buyer),
        holding: holding(id(91), mint, buyer),
        mint: mint_account(mint),
        lister: plain(lister),
        platform_state: stored(platform(Part::State), cfg, 1_000_000),
        platform_vault: stored(platform(Part::Vault), vec![], 890_880),
        list_state: stored(escrow(mint, lister, Role::List, Part::State), listing, 1_620_720),
        list_vault: plain(escrow(mint, lister, Role::List, Part::Vault)),
        token_program: plain(token_program_id()),
        system_program: plain(system_program_id()),
    }
}

fn open_listing(mint: Identity, lister: Identity, amount: u64) -> Vec<u8> {
    let r = Processor::process(&program(), &Command::List { accounts: list_accounts(mint, lister), amount }).unwrap();
    written(&r, escrow(mint, lister, Role::List, Part::State))
}

fn open_bid(mint: Identity, bidder: Identity, amount: u64) -> Vec<u8> {
    let r = Processor::process(&program(), &Command::Bid { accounts: bid_accounts(mint, bidder), amount }).unwrap();
    written(&r, escrow(mint, bidder, Role::Bid, Part::State))
}

#[test]
fn initialize_creates_platform_accounts() {
    let authority = id(1);
    let accounts = InitAccounts {
        payer: wallet(id(2)),
        platform_state: plain(platform(Part::State)),
        platform_vault: plain(platform(Part::Vault)),
        program: plain(program()),
        system_program: plain(system_program_id()),
    };
    let r = Processor::process(&program(), &Command::Initialize { accounts, authority, fee_rate: 10_000_000 }).unwrap();
    assert_eq!(r.len(), 3);
    assert!(matches!(r[0], Effect::CreateAccount { space: 41, .. }));
    assert!(matches!(r[1], Effect::CreateAccount { space: 0, .. }));
    assert_eq!(written(&r, platform(Part::State)), platform_record(10_000_000, authority));
}

#[test]
fn initialize_twice_is_refused() {
    let accounts = InitAccounts {
        payer: wallet(id(2)),
        platform_state: stored(platform(Part::State), platform_record(0, id(1)), 1_000_000),
        platform_vault: plain(platform(Part::Vault)),
        program: plain(program()),
        system_program: plain(system_program_id()),
    };
    let r = Processor::process(&program(), &Command::Initialize { accounts, authority: id(3), fee_rate: 0 });
    assert_eq!(r, Err(MarketError::AccountInUse));
    assert_eq!(MarketError::AccountInUse.kind(), ErrorKind::Resource);
}

#[test]
fn one_percent_fee_on_accepted_bid() {
    let (mint, lister, bidder) = (id(10), id(11), id(12));
    let listing = open_listing(mint, lister, 5_000_000_000);
    let bid = open_bid(mint, bidder, 5_000_000_000);
    let vault_lamports = 5_000_000_000 + 890_880;
    let a = accept_bid_accounts(mint, lister, bidder, platform_record(10_000_000, id(1)), listing, bid, vault_lamports);
    let r = Processor::process(&program(), &Command::AcceptBid { accounts: a }).unwrap();
    let bid_vault = escrow(mint, bidder, Role::Bid, Part::Vault);
    let bid_state = escrow(mint, bidder, Role::Bid, Part::State);
    assert_eq!(r[1], Effect::Move { from: bid_vault, to: platform(Part::Vault), lamports: 50_000_000 });
    assert_eq!(r[2], Effect::Move { from: bid_vault, to: lister, lamports: 4_950_000_000 });
    assert_eq!(r[3], Effect::Sweep { from: bid_vault, to: bidder });
    assert_eq!(r[4], Effect::Sweep { from: bid_state, to: bidder });
    let stored_listing = ListEscrowState::unpack(&written(&r, escrow(mint, lister, Role::List, Part::State))).unwrap();
    assert!(stored_listing.success);
    assert_eq!(stored_listing.successful_buyer, bidder);
    assert_eq!(stored_listing.amount, 5_000_000_000);
    assert_eq!(r[5], Effect::Log(Event::BidAccepted { bidder, lister, amount: 5_000_000_000, mint }));
}

#[test]
fn delist_then_list_again() {
    let (mint, lister) = (id(20), id(21));
    let listing = open_listing(mint, lister, 7);
    let state = escrow(mint, lister, Role::List, Part::State);
    let vault = escrow(mint, lister, Role::List, Part::Vault);
    let a = DeListAccounts {
        lister: wallet(lister),
        holding: holding(id(92), mint, lister),
        mint: mint_account(mint),
        list_state: stored(state, listing, 1_620_720),
        list_vault: plain(vault),
        program: plain(program()),
        token_program: plain(token_program_id()),
    };
    let r = Processor::process(&program(), &Command::DeList { accounts: a }).unwrap();
    assert!(matches!(r[0], Effect::TransferItem { source, destination, .. } if source == vault && destination == id(92)));
    assert!(matches!(r[1], Effect::CloseTokenAccount { account, destination, .. } if account == vault && destination == state));
    assert_eq!(r[2], Effect::Sweep { from: state, to: lister });
    assert_eq!(r[3], Effect::Log(Event::Delisted { lister, amount: 7, mint }));
    let again = Processor::process(&program(), &Command::List { accounts: list_accounts(mint, lister), amount: 9 });
    assert!(again.is_ok());
}

#[test]
fn list_twice_collides() {
    let (mint, lister) = (id(30), id(31));
    let listing = open_listing(mint, lister, 100);
    let mut a = list_accounts(mint, lister);
    a.list_state = stored(a.list_state.key, listing, 1_620_720);
    let r = Processor::process(&program(), &Command::List { accounts: a, amount: 100 });
    assert_eq!(r, Err(MarketError::AccountInUse));
}

#[test]
fn two_bidders_get_distinct_escrows() {
    let (mint, lister, b1, b2) = (id(40), id(41), id(42), id(43));
    assert_ne!(escrow(mint, b1, Role::Bid, Part::State), escrow(mint, b2, Role::Bid, Part::State));
    let bid1 = open_bid(mint, b1, 1_000);
    let bid2 = open_bid(mint, b2, 2_000);
    let listing = open_listing(mint, lister, 500);
    let a = accept_bid_accounts(mint, lister, b1, platform_record(0, id(1)), listing, bid1, 1_000 + 890_880);
    assert!(Processor::process(&program(), &Command::AcceptBid { accounts: a }).is_ok());
    let w = WithdrawBidAccounts {
        bidder: wallet(b2),
        mint: mint_account(mint),
        bid_state: stored(escrow(mint, b2, Role::Bid, Part::State), bid2, 1_392_000),
        bid_vault: stored(escrow(mint, b2, Role::Bid, Part::Vault), vec![], 2_000 + 890_880),
        program: plain(program()),
    };
    let r = Processor::process(&program(), &Command::WithdrawBid { accounts: w }).unwrap();
    assert_eq!(r[0], Effect::Sweep { from: escrow(mint, b2, Role::Bid, Part::State), to: b2 });
    assert_eq!(r[1], Effect::Sweep { from: escrow(mint, b2, Role::Bid, Part::Vault), to: b2 });
    assert_eq!(r[2], Effect::Log(Event::BidWithdrawn { bidder: b2, amount: 2_000, mint }));
}

#[test]
fn change_fee_by_stranger_is_refused() {
    let a = AdminAccounts { signer: wallet(id(5)), platform_state: stored(platform(Part::State), platform_record(7, id(1)), 1) };
    let r = Processor::process(&program(), &Command::ChangeFee { accounts: a, fee_rate: 99 });
    assert_eq!(r, Err(MarketError::InvalidAuthority));
    assert_eq!(MarketError::InvalidAuthority.kind(), ErrorKind::Authorization);
}

#[test]
fn change_fee_and_authority_by_authority() {
    let a = AdminAccounts { signer: wallet(id(1)), platform_state: stored(platform(Part::State), platform_record(7, id(1)), 1) };
    let r = Processor::process(&program(), &Command::ChangeFee { accounts: a.clone(), fee_rate: 99 }).unwrap();
    assert_eq!(written(&r, platform(Part::State)), platform_record(99, id(1)));
    let r = Processor::process(&program(), &Command::ChangeAuthority { accounts: a, authority: id(6) }).unwrap();
    assert_eq!(written(&r, platform(Part::State)), platform_record(7, id(6)));
}

#[test]
fn change_authority_on_uninitialized_platform() {
    let cfg = PlatformState { is_initialized: false, authority: id(1), platform_fee: 0 }.pack();
    let a = AdminAccounts { signer: wallet(id(1)), platform_state: stored(platform(Part::State), cfg, 1) };
    let r = Processor::process(&program(), &Command::ChangeAuthority { accounts: a, authority: id(6) });
    assert_eq!(r, Err(MarketError::Uninitialized));
}

#[test]
fn accept_listing_without_fee() {
    let (mint, lister, buyer) = (id(50), id(51), id(52));
    let listing = open_listing(mint, lister, 3_000);
    let a = accept_listing_accounts(mint, lister, buyer, platform_record(0, id(1)), listing);
    let r = Processor::process(&program(), &Command::AcceptListing { accounts: a }).unwrap();
    assert!(matches!(r[0], Effect::TransferItem { destination, .. } if destination == id(91)));
    let vault = escrow(mint, lister, Role::List, Part::Vault);
    assert!(matches!(r[1], Effect::CloseTokenAccount { account, destination, .. } if account == vault && destination == buyer));
    assert_eq!(r[2], Effect::Pay { from: buyer, to: lister, lamports: 3_000 });
    assert_eq!(r[3], Effect::Pay { from: buyer, to: platform(Part::Vault), lamports: 0 });
    let stored_listing = ListEscrowState::unpack(&written(&r, escrow(mint, lister, Role::List, Part::State))).unwrap();
    assert!(stored_listing.success);
    assert_eq!(stored_listing.successful_buyer, buyer);
    assert_eq!(r[5], Effect::Sweep { from: escrow(mint, lister, Role::List, Part::State), to: lister });
}

#[test]
fn matched_listing_refuses_second_accept() {
    let (mint, lister, bidder, buyer) = (id(60), id(61), id(62), id(63));
    let listing = open_listing(mint, lister, 10);
    let bid = open_bid(mint, bidder, 10);
    let a = accept_bid_accounts(mint, lister, bidder, platform_record(0, id(1)), listing, bid.clone(), 10 + 890_880);
    let r = Processor::process(&program(), &Command::AcceptBid { accounts: a }).unwrap();
    let matched = written(&r, escrow(mint, lister, Role::List, Part::State));
    let again = accept_bid_accounts(mint, lister, bidder, platform_record(0, id(1)), matched.clone(), bid, 10 + 890_880);
    let r2 = Processor::process(&program(), &Command::AcceptBid { accounts: again });
    assert_eq!(r2, Err(MarketError::ListingAlreadyFulfilled));
    assert_eq!(MarketError::ListingAlreadyFulfilled.kind(), ErrorKind::State);
    let direct = accept_listing_accounts(mint, lister, buyer, platform_record(0, id(1)), matched);
    let r3 = Processor::process(&program(), &Command::AcceptListing { accounts: direct });
    assert_eq!(r3, Err(MarketError::ListingAlreadyFulfilled));
}

#[test]
fn buyer_collects_item_after_accepted_bid() {
    let (mint, lister, bidder) = (id(70), id(71), id(72));
    let listing = open_listing(mint, lister, 10);
    let bid = open_bid(mint, bidder, 10);
    let a = accept_bid_accounts(mint, lister, bidder, platform_record(0, id(1)), listing.clone(), bid, 10 + 890_880);
    let r = Processor::process(&program(), &Command::AcceptBid { accounts: a }).unwrap();
    let matched = written(&r, escrow(mint, lister, Role::List, Part::State));
    let state = escrow(mint, lister, Role::List, Part::State);
    let vault = escrow(mint, lister, Role::List, Part::Vault);
    let w = WithdrawNftAccounts {
        buyer: wallet(bidder),
        holding: holding(id(93), mint, bidder),
        mint: mint_account(mint),
        lister: plain(lister),
        list_state: stored(state, matched.clone(), 1_620_720),
        list_vault: plain(vault),
        token_program: plain(token_program_id()),
    };
    let r = Processor::process(&program(), &Command::WithdrawNFTOnSuccess { accounts: w.clone() }).unwrap();
    assert!(matches!(r[0], Effect::TransferItem { source, destination, authority, .. } if source == vault && destination == id(93) && authority == state));
    assert_eq!(r[2], Effect::Sweep { from: state, to: lister });
    let mut stranger = w.clone();
    stranger.buyer = wallet(id(74));
    stranger.holding = holding(id(94), mint, id(74));
    assert_eq!(Processor::process(&program(), &Command::WithdrawNFTOnSuccess { accounts: stranger }), Err(MarketError::InvalidAuthority));
    let mut open = w;
    open.list_state = stored(state, listing, 1_620_720);
    assert_eq!(Processor::process(&program(), &Command::WithdrawNFTOnSuccess { accounts: open }), Err(MarketError::ListingNotFulfilled));
}

#[test]
fn refund_by_authority_only() {
    let (mint, bidder) = (id(80), id(81));
    let bid = open_bid(mint, bidder, 5);
    let make = |signer: Identity| RefundAccounts {
        authority: wallet(signer),
        mint: mint_account(mint),
        bidder: plain(bidder),
        platform_state: stored(platform(Part::State), platform_record(0, id(1)), 1),
        bid_state: stored(escrow(mint, bidder, Role::Bid, Part::State), bid.clone(), 1_392_000),
        bid_vault: stored(escrow(mint, bidder, Role::Bid, Part::Vault), vec![], 5 + 890_880),
    };
    let r = Processor::process(&program(), &Command::RefundUser { accounts: make(id(1)) }).unwrap();
    assert_eq!(r, vec![
        Effect::Sweep { from: escrow(mint, bidder, Role::Bid, Part::State), to: bidder },
        Effect::Sweep { from: escrow(mint, bidder, Role::Bid, Part::Vault), to: bidder },
    ]);
    assert_eq!(Processor::process(&program(), &Command::RefundUser { accounts: make(id(2)) }), Err(MarketError::InvalidAuthority));
}

#[test]
fn missing_signature_is_refused() {
    let mut a = bid_accounts(id(95), id(96));
    a.bidder.is_signer = false;
    assert_eq!(Processor::process(&program(), &Command::Bid { accounts: a, amount: 1 }), Err(MarketError::MissingSignature));
}

#[test]
fn substituted_escrow_account_is_refused() {
    let mut a = bid_accounts(id(95), id(96));
    a.bid_state = plain(id(97));
    let r = Processor::process(&program(), &Command::Bid { accounts: a, amount: 1 });
    assert_eq!(r, Err(MarketError::IdentityMismatch));
    assert_eq!(MarketError::IdentityMismatch.kind(), ErrorKind::IdentityMismatch);
}

#[test]
fn short_bid_vault_is_refused() {
    let (mint, lister, bidder) = (id(100), id(101), id(102));
    let listing = open_listing(mint, lister, 10);
    let bid = open_bid(mint, bidder, 1_000);
    let a = accept_bid_accounts(mint, lister, bidder, platform_record(0, id(1)), listing, bid, 999);
    assert_eq!(Processor::process(&program(), &Command::AcceptBid { accounts: a }), Err(MarketError::InsufficientFunds));
}

#[test]
fn excessive_fee_rate_is_refused() {
    let (mint, lister, buyer) = (id(103), id(104), id(105));
    let listing = open_listing(mint, lister, 10);
    let a = accept_listing_accounts(mint, lister, buyer, platform_record(2_000_000_000, id(1)), listing);
    assert_eq!(Processor::process(&program(), &Command::AcceptListing { accounts: a }), Err(MarketError::InvalidFeeRate));
}

#[test]
fn corrupt_listing_is_refused() {
    let (mint, lister, buyer) = (id(106), id(107), id(108));
    let mut listing = open_listing(mint, lister, 10);
    listing[72] = 2;
    let a = accept_listing_accounts(mint, lister, buyer, platform_record(0, id(1)), listing);
    let r = Processor::process(&program(), &Command::AcceptListing { accounts: a });
    assert_eq!(r, Err(MarketError::MalformedRecord));
    assert_eq!(MarketError::MalformedRecord.kind(), ErrorKind::Malformed);
}

#[test]
fn unparsable_holding_is_refused() {
    let mut a = list_accounts(id(110), id(111));
    a.holding.data = vec![0u8; 10];
    assert_eq!(Processor::process(&program(), &Command::List { accounts: a, amount: 1 }), Err(MarketError::MalformedRecord));
}

#[test]
fn token_account_fields_are_read() {
    let mut bytes = holding_bytes(id(3), id(4));
    bytes[64] = 2;
    bytes[65] = 1;
    let h = token_holding(&bytes).unwrap();
    assert_eq!(h, TokenHolding { mint: id(3), owner: id(4), amount: 258 });
}

#[test]
fn token_account_with_bad_state_or_tag_is_refused() {
    let mut bytes = holding_bytes(id(3), id(4));
    bytes[108] = 2;
    assert!(token_holding(&bytes).is_ok());
    bytes[108] = 3;
    assert_eq!(token_holding(&bytes), Err(MarketError::MalformedRecord));
    let mut bytes = holding_bytes(id(3), id(4));
    bytes[72] = 1;
    assert!(token_holding(&bytes).is_ok());
    bytes[72] = 2;
    assert_eq!(token_holding(&bytes), Err(MarketError::MalformedRecord));
    let mut bytes = holding_bytes(id(3), id(4));
    bytes[110] = 1;
    assert_eq!(token_holding(&bytes), Err(MarketError::MalformedRecord));
    let mut bytes = holding_bytes(id(3), id(4));
    bytes[129] = 1;
    assert!(token_holding(&bytes).is_ok());
    bytes[132] = 1;
    assert_eq!(token_holding(&bytes), Err(MarketError::MalformedRecord));
}

#[test]
fn buyer_already_holding_the_item_is_refused() {
    let (mint, lister, buyer) = (id(112), id(113), id(114));
    let listing = open_listing(mint, lister, 10);
    let mut a = accept_listing_accounts(mint, lister, buyer, platform_record(0, id(1)), listing);
    a.holding.data[64] = 1;
    let r = Processor::process(&program(), &Command::AcceptListing { accounts: a });
    assert_eq!(r, Err(MarketError::ItemAlreadyHeld));
}

#[test]
fn program_ids_match_the_programs() {
    assert_eq!(token_program_id().to_array(), spl_token::id().to_bytes());
    assert_eq!(system_program_id(), Identity::zero());
}

#[test]
fn recorded_writes_pack_the_record() {
    let r = Record::Bid(BidEscrowState { bidder: id(1), mint: id(2), amount: 3 });
    assert_eq!(r.pack().len(), 72);
}
