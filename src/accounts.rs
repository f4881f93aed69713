//! Snapshots of the accounts a command touches, and what the token and system
//! programs say about them.
use vstd::prelude::*;

use crate::error::MarketError;
use crate::address::identity_of;
use crate::identity::{Identity, le_value, lemma_identity_ext};
use solana_program::program_error::ProgramError;
use solana_program::program_pack::Pack;

verus! {

/// solana_program's `ProgramError`, which the token account reader returns;
/// it is only carried, never inspected.
#[verifier::external_type_specification]
#[verifier::external_body]
pub struct ExProgramError(ProgramError);

/// One account as the ledger hands it over: its address, whether it signed,
/// the program that owns it, its balance and its stored bytes.
#[derive(Clone, Debug)]
pub struct AccountView {
    pub key: Identity,
    pub is_signer: bool,
    pub owner: Identity,
    pub lamports: u64,
    pub data: Vec<u8>,
}

impl AccountView {
    /// The account holds neither funds nor data, so it can be created.
    pub open spec fn vacant(&self) -> bool {
        self.lamports == 0 && self.data@.len() == 0
    }

    pub fn is_vacant(&self) -> (r: bool)
        ensures
            r == self.vacant(),
    {
        self.lamports == 0 && self.data.len() == 0
    }
}

/// The fields of a token account that the settlement rules read.
#[derive(Clone, Copy, Debug, PartialEq, Eq)]
pub struct TokenHolding {
    pub mint: Identity,
    pub owner: Identity,
    pub amount: u64,
}

/// The length of a token account.
pub const TOKEN_ACCOUNT_LEN: usize = 165;

/// A 4-byte optional-field tag: absent `[0, 0, 0, 0]` or present `[1, 0, 0, 0]`.
pub open spec fn option_tag_ok(t: Seq<u8>) -> bool {
    t == seq![0u8, 0u8, 0u8, 0u8] || t == seq![1u8, 0u8, 0u8, 0u8]
}

/// `d` is a token account the token program reads: 165 bytes, a state byte
/// (offset 108) of 0, 1 or 2, and valid tags on the delegate (72..76), the
/// native amount (109..113) and the close authority (129..133).
pub open spec fn token_account_ok(d: Seq<u8>) -> bool {
    &&& d.len() == TOKEN_ACCOUNT_LEN
    &&& d[108] <= 2
    &&& option_tag_ok(d.subrange(72, 76))
    &&& option_tag_ok(d.subrange(109, 113))
    &&& option_tag_ok(d.subrange(129, 133))
}

/// `data` could be a token account whose mint, owner and amount are those of `h`.
pub open spec fn holding_fits(data: Seq<u8>, h: TokenHolding) -> bool {
    &&& data.len() == TOKEN_ACCOUNT_LEN
    &&& h.mint@ == data.subrange(0, 32)
    &&& h.owner@ == data.subrange(32, 64)
    &&& h.amount == le_value(data.subrange(64, 72))
}

/// Relies on spl_token's `Account::unpack_unchecked`: it accepts exactly the
/// data of `token_account_ok` (length 165, then the state byte and the three
/// optional-field tags), and reads the mint from bytes 0..32, the owner from
/// bytes 32..64 and the amount, little-endian, from bytes 64..72.
#[verifier::external_body]
fn unpack_token_account(data: &[u8]) -> (r: Result<TokenHolding, ProgramError>)
    ensures
        (r is Ok) == token_account_ok(data@),
        r matches Ok(h) ==> holding_fits(data@, h),
{
    spl_token::state::Account::unpack_unchecked(data).map(|a| TokenHolding {
        mint: Identity { bytes: a.mint.to_bytes() },
        owner: Identity { bytes: a.owner.to_bytes() },
        amount: a.amount,
    })
}

/// What reading the token account `data` gives.
pub open spec fn token_read(data: Seq<u8>) -> Result<TokenHolding, MarketError> {
    if token_account_ok(data) {
        Ok(
            TokenHolding {
                mint: identity_of(data.subrange(0, 32)),
                owner: identity_of(data.subrange(32, 64)),
                amount: le_value(data.subrange(64, 72)),
            },
        )
    } else {
        Err(MarketError::MalformedRecord)
    }
}

/// The mint, owner and amount of a token account, as the token program reads
/// them.
pub fn token_holding(data: &[u8]) -> (r: Result<TokenHolding, MarketError>)
    ensures
        r == token_read(data@),
{
    match unpack_token_account(data) {
        Ok(h) => {
            proof {
                lemma_identity_ext(h.mint, identity_of(data@.subrange(0, 32)));
                lemma_identity_ext(h.owner, identity_of(data@.subrange(32, 64)));
            }
            Ok(h)
        },
        Err(_) => Err(MarketError::MalformedRecord),
    }
}

/// The address of the token program, `TokenkegQfeZyiNwAJbNbGKPFXCWuBvf9Ss623VQ5DA`.
pub open spec fn token_program_key() -> Seq<u8> {
    seq![
        6u8, 221u8, 246u8, 225u8, 215u8, 101u8, 161u8, 147u8, 217u8, 203u8, 225u8, 70u8, 206u8,
        235u8, 121u8, 172u8, 28u8, 180u8, 133u8, 237u8, 95u8, 91u8, 55u8, 145u8, 58u8, 140u8,
        245u8, 133u8, 126u8, 255u8, 0u8, 169u8,
    ]
}

/// The address of the system program, `11111111111111111111111111111111`.
pub open spec fn system_program_key() -> Seq<u8> {
    Seq::new(32, |i: int| 0u8)
}

/// Relies on `spl_token::id()`: the token program's address, declared as
/// `TokenkegQfeZyiNwAJbNbGKPFXCWuBvf9Ss623VQ5DA`, whose base58 decoding is
/// `token_program_key`.
#[verifier::external_body]
fn spl_token_id() -> (r: Identity)
    ensures
        r@ == token_program_key(),
{
    Identity { bytes: spl_token::id().to_bytes() }
}

/// The token program's address.
pub fn token_program_id() -> (r: Identity)
    ensures
        r == identity_of(token_program_key()),
        r@ == token_program_key(),
{
    let r = spl_token_id();
    proof {
        lemma_identity_ext(r, identity_of(token_program_key()));
    }
    r
}

/// Relies on `solana_system_interface::program::id()`: the system program's
/// address, declared as `11111111111111111111111111111111`, all zero bytes.
#[verifier::external_body]
fn system_interface_id() -> (r: Identity)
    ensures
        r@ == system_program_key(),
{
    Identity { bytes: solana_system_interface::program::id().to_bytes() }
}

/// The system program's address.
pub fn system_program_id() -> (r: Identity)
    ensures
        r == identity_of(system_program_key()),
        r@ == system_program_key(),
{
    let r = system_interface_id();
    proof {
        lemma_identity_ext(r, identity_of(system_program_key()));
    }
    r
}

} // verus!
