use nft_escrow::address::{derive_address, Part, Role, SeedSet};
use nft_escrow::error::MarketError;
use nft_escrow::fee::platform_fee;
use nft_escrow::identity::Identity;
use nft_escrow::state::{BidEscrowState, ListEscrowState, PlatformState};
use solana_program::pubkey::Pubkey;

fn id(b: u8) -> Identity {
    Identity::from_array([b; 32])
}

#[test]
fn platform_round_trip_at_fee_bounds() {
    for fee in [0u64, 1_000_000_000, u64::MAX] {
        for init in [false, true] {
            let r = PlatformState { is_initialized: init, authority: id(9), platform_fee: fee };
            let bytes = r.pack();
            assert_eq!(bytes.len(), 41);
            assert_eq!(PlatformState::unpack(&bytes), Ok(r));
        }
    }
}

#[test]
fn platform_layout_is_big_endian() {
    let r = PlatformState { is_initialized: true, authority: id(9), platform_fee: 0x0102030405060708 };
    let bytes = r.pack();
    assert_eq!(bytes[0], 1);
    assert_eq!(&bytes[1..33], &[9u8; 32]);
    assert_eq!(&bytes[33..41], &[1, 2, 3, 4, 5, 6, 7, 8]);
}

#[test]
fn listing_round_trip() {
    for amount in [0u64, u64::MAX] {
        for success in [false, true] {
            let r = ListEscrowState { lister: id(1), mint: id(2), amount, success, successful_buyer: id(3) };
            let bytes = r.pack();
            assert_eq!(bytes.len(), 105);
            assert_eq!(bytes[72], success as u8);
            assert_eq!(ListEscrowState::unpack(&bytes), Ok(r));
        }
    }
}

#[test]
fn bid_round_trip() {
    for amount in [0u64, 5_000_000_000, u64::MAX] {
        let r = BidEscrowState { bidder: id(4), mint: id(5), amount };
        let bytes = r.pack();
        assert_eq!(bytes.len(), 72);
        assert_eq!(BidEscrowState::unpack(&bytes), Ok(r));
    }
}

#[test]
fn bad_flag_or_length_is_malformed() {
    let mut bytes = PlatformState { is_initialized: true, authority: id(9), platform_fee: 1 }.pack();
    bytes[0] = 2;
    assert_eq!(PlatformState::unpack(&bytes), Err(MarketError::MalformedRecord));
    assert_eq!(PlatformState::unpack(&[1u8; 40]), Err(MarketError::MalformedRecord));
    assert_eq!(ListEscrowState::unpack(&[0u8; 104]), Err(MarketError::MalformedRecord));
    assert_eq!(BidEscrowState::unpack(&[0u8; 73]), Err(MarketError::MalformedRecord));
    assert_eq!(BidEscrowState::unpack(&[]), Err(MarketError::MalformedRecord));
}

#[test]
fn fee_values() {
    assert_eq!(platform_fee(5_000_000_000, 10_000_000), Some(50_000_000));
    assert_eq!(platform_fee(5_000_000_000, 0), Some(0));
    assert_eq!(platform_fee(999, 1_000_000), Some(0));
    assert_eq!(platform_fee(u64::MAX, 1_000_000_000), Some(u64::MAX));
    assert_eq!(platform_fee(u64::MAX, 500_000_000), Some(u64::MAX / 2));
    assert_eq!(platform_fee(0, 1_000_000_000), Some(0));
    assert_eq!(platform_fee(10, 2_000_000_000), None);
}

#[test]
fn fee_never_exceeds_amount() {
    for amount in [0u64, 1, 7, 1_000_000_000, 123_456_789_012, u64::MAX] {
        for rate in [0u64, 1, 333_333_333, 999_999_999, 1_000_000_000] {
            let fee = platform_fee(amount, rate).unwrap();
            assert!(fee <= amount);
            assert_eq!(fee + (amount - fee), amount);
        }
    }
}

#[test]
fn derivation_is_deterministic_and_distinct() {
    let program = id(200);
    let mint = id(1);
    let mut seen = Vec::new();
    for party in [id(2), id(3)] {
        for role in [Role::List, Role::Bid] {
            for part in [Part::State, Part::Vault] {
                let s = SeedSet::Escrow { mint, party, role, part };
                let a = derive_address(&s, &program).unwrap();
                assert_eq!(derive_address(&s, &program).unwrap(), a);
                assert!(!seen.contains(&a.0));
                seen.push(a.0);
            }
        }
    }
    for part in [Part::State, Part::Vault] {
        let a = derive_address(&SeedSet::Platform { part }, &program).unwrap().0;
        assert!(!seen.contains(&a));
        seen.push(a);
    }
}

#[test]
fn derivation_matches_find_program_address() {
    let program = id(200);
    let (mint, party) = (id(1), id(2));
    let (a, n) = derive_address(&SeedSet::Escrow { mint, party, role: Role::List, part: Part::State }, &program).unwrap();
    let (expected, bump) = Pubkey::find_program_address(
        &[&mint.to_array(), &party.to_array(), b"List", b"State"],
        &Pubkey::new_from_array(program.to_array()),
    );
    assert_eq!(a.to_array(), expected.to_bytes());
    assert_eq!(n, bump);
    let (p, _) = derive_address(&SeedSet::Platform { part: Part::Vault }, &program).unwrap();
    let (expected, _) = Pubkey::find_program_address(&[b"Platform", b"Vault"], &Pubkey::new_from_array(program.to_array()));
    assert_eq!(p.to_array(), expected.to_bytes());
}

#[test]
fn signer_seeds_end_with_bump() {
    let s = SeedSet::Platform { part: Part::State };
    let seeds = s.signer_seeds(254);
    assert_eq!(seeds, vec![b"Platform".to_vec(), b"State".to_vec(), vec![254u8]]);
}
