//! Creating the platform configuration and changing it.
use vstd::prelude::*;

use crate::accounts::AccountView;
use crate::address::{Part, SeedSet};
use crate::error::MarketError;
use crate::processor::{Programs, platform_seeds};
use crate::identity::Identity;
use crate::plan::{Effect, Record, check_pda, match_pda, outcome};
use crate::state::{PlatformState, STATESIZE};

verus! {

/// Accounts of `Initialize`.
#[derive(Clone, Debug)]
pub struct InitAccounts {
    pub payer: AccountView,
    pub platform_state: AccountView,
    pub platform_vault: AccountView,
    pub program: AccountView,
    pub system_program: AccountView,
}

/// Accounts of `ChangeAuthority` and `ChangeFee`.
#[derive(Clone, Debug)]
pub struct AdminAccounts {
    pub signer: AccountView,
    pub platform_state: AccountView,
}

// ----- Initialize -----

/// The outcome of `Initialize`: the checks in order, then the platform
/// accounts created and the configuration stored.
pub open spec fn init_outcome(
    a: InitAccounts,
    authority: Identity,
    fee_rate: u64,
    ids: Programs,
    state: Option<(Identity, u8)>,
    vault: Option<(Identity, u8)>,
) -> Result<Seq<Effect>, MarketError> {
    if !a.payer.is_signer {
        Err(MarketError::MissingSignature)
    } else if a.program.key != ids.program_id || a.system_program.key != ids.system_program {
        Err(MarketError::IdentityMismatch)
    } else if check_pda(state, a.platform_state.key) is Err {
        Err(check_pda(state, a.platform_state.key)->Err_0)
    } else if !a.platform_state.vacant() {
        Err(MarketError::AccountInUse)
    } else if check_pda(vault, a.platform_vault.key) is Err {
        Err(check_pda(vault, a.platform_vault.key)->Err_0)
    } else if !a.platform_vault.vacant() {
        Err(MarketError::AccountInUse)
    } else {
        Ok(
            seq![
                Effect::CreateAccount {
                    payer: a.payer.key,
                    address: a.platform_state.key,
                    space: STATESIZE as u64,
                    owner: ids.program_id,
                    seeds: platform_seeds(Part::State),
                    nonce: check_pda(state, a.platform_state.key)->Ok_0,
                },
                Effect::CreateAccount {
                    payer: a.payer.key,
                    address: a.platform_vault.key,
                    space: 0,
                    owner: ids.program_id,
                    seeds: platform_seeds(Part::Vault),
                    nonce: check_pda(vault, a.platform_vault.key)->Ok_0,
                },
                Effect::Write {
                    account: a.platform_state.key,
                    record: Record::Platform(
                        PlatformState { is_initialized: true, authority, platform_fee: fee_rate },
                    ),
                },
            ],
        )
    }
}

/// Creates the platform configuration and the platform vault, given the
/// derived addresses `state` and `vault` of the platform seeds.
pub fn plan_init(
    a: &InitAccounts,
    authority: Identity,
    fee_rate: u64,
    ids: &Programs,
    state: Option<(Identity, u8)>,
    vault: Option<(Identity, u8)>,
) -> (r: Result<Vec<Effect>, MarketError>)
    ensures
        outcome(r) == init_outcome(*a, authority, fee_rate, *ids, state, vault),
{
    if !a.payer.is_signer {
        return Err(MarketError::MissingSignature);
    }
    if !a.program.key.same_as(&ids.program_id) || !a.system_program.key.same_as(&ids.system_program) {
        return Err(MarketError::IdentityMismatch);
    }
    let n1 = match match_pda(state, &a.platform_state.key) {
        Ok(n) => n,
        Err(e) => return Err(e),
    };
    if !a.platform_state.is_vacant() {
        return Err(MarketError::AccountInUse);
    }
    let n2 = match match_pda(vault, &a.platform_vault.key) {
        Ok(n) => n,
        Err(e) => return Err(e),
    };
    if !a.platform_vault.is_vacant() {
        return Err(MarketError::AccountInUse);
    }
    let mut v: Vec<Effect> = Vec::new();
    v.push(
        Effect::CreateAccount {
            payer: a.payer.key,
            address: a.platform_state.key,
            space: STATESIZE as u64,
            owner: ids.program_id,
            seeds: SeedSet::Platform { part: Part::State },
            nonce: n1,
        },
    );
    v.push(
        Effect::CreateAccount {
            payer: a.payer.key,
            address: a.platform_vault.key,
            space: 0,
            owner: ids.program_id,
            seeds: SeedSet::Platform { part: Part::Vault },
            nonce: n2,
        },
    );
    v.push(
        Effect::Write {
            account: a.platform_state.key,
            record: Record::Platform(
                PlatformState { is_initialized: true, authority, platform_fee: fee_rate },
            ),
        },
    );
    assert(v@ =~= init_outcome(*a, authority, fee_rate, *ids, state, vault)->Ok_0);
    Ok(v)
}

// ----- ChangeAuthority / ChangeFee -----

/// The configuration the administrator `a.signer` may change.
pub open spec fn admin_check(a: AdminAccounts, state: Option<(Identity, u8)>) -> Result<
    PlatformState,
    MarketError,
> {
    let cfg = PlatformState::decoded(a.platform_state.data@);
    if !a.signer.is_signer {
        Err(MarketError::MissingSignature)
    } else if !PlatformState::well_formed(a.platform_state.data@) {
        Err(MarketError::MalformedRecord)
    } else if check_pda(state, a.platform_state.key) is Err {
        Err(check_pda(state, a.platform_state.key)->Err_0)
    } else if !cfg.is_initialized {
        Err(MarketError::Uninitialized)
    } else if cfg.authority != a.signer.key {
        Err(MarketError::InvalidAuthority)
    } else {
        Ok(cfg)
    }
}

fn check_admin(a: &AdminAccounts, state: Option<(Identity, u8)>) -> (r: Result<
    PlatformState,
    MarketError,
>)
    ensures
        r == admin_check(*a, state),
{
    if !a.signer.is_signer {
        return Err(MarketError::MissingSignature);
    }
    let cfg = match PlatformState::unpack(a.platform_state.data.as_slice()) {
        Ok(c) => c,
        Err(e) => return Err(e),
    };
    match match_pda(state, &a.platform_state.key) {
        Ok(_) => {},
        Err(e) => return Err(e),
    }
    if !cfg.is_initialized {
        return Err(MarketError::Uninitialized);
    }
    if !cfg.authority.same_as(&a.signer.key) {
        return Err(MarketError::InvalidAuthority);
    }
    Ok(cfg)
}

/// The outcome of an administrative change: `cfg` is stored once the signer
/// is found to be the platform authority.
pub open spec fn admin_outcome(
    a: AdminAccounts,
    state: Option<(Identity, u8)>,
    cfg: PlatformState,
) -> Result<Seq<Effect>, MarketError> {
    match admin_check(a, state) {
        Err(e) => Err(e),
        Ok(_) => Ok(
            seq![Effect::Write { account: a.platform_state.key, record: Record::Platform(cfg) }],
        ),
    }
}

fn store_config(a: &AdminAccounts, cfg: PlatformState) -> (r: Vec<Effect>)
    ensures
        r@ == seq![Effect::Write { account: a.platform_state.key, record: Record::Platform(cfg) }],
{
    let mut v: Vec<Effect> = Vec::new();
    v.push(Effect::Write { account: a.platform_state.key, record: Record::Platform(cfg) });
    assert(v@ =~= seq![
        Effect::Write { account: a.platform_state.key, record: Record::Platform(cfg) },
    ]);
    v
}

/// Hands the platform to `authority`, given the derived address `state` of
/// the platform configuration.
pub fn plan_change_authority(
    a: &AdminAccounts,
    authority: Identity,
    state: Option<(Identity, u8)>,
) -> (r: Result<Vec<Effect>, MarketError>)
    ensures
        outcome(r) == admin_outcome(
            *a,
            state,
            PlatformState { authority, ..PlatformState::decoded(a.platform_state.data@) },
        ),
{
    let cfg = match check_admin(a, state) {
        Ok(c) => c,
        Err(e) => return Err(e),
    };
    Ok(store_config(a, PlatformState { authority, ..cfg }))
}

/// Sets the platform fee rate, given the derived address `state` of the
/// platform configuration.
pub fn plan_change_fee(
    a: &AdminAccounts,
    fee_rate: u64,
    state: Option<(Identity, u8)>,
) -> (r: Result<Vec<Effect>, MarketError>)
    ensures
        outcome(r) == admin_outcome(
            *a,
            state,
            PlatformState {
                platform_fee: fee_rate,
                ..PlatformState::decoded(a.platform_state.data@)
            },
        ),
{
    let cfg = match check_admin(a, state) {
        Ok(c) => c,
        Err(e) => return Err(e),
    };
    Ok(store_config(a, PlatformState { platform_fee: fee_rate, ..cfg }))
}

} // verus!
