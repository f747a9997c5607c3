//! Administrative records and gates around the engine.
//!
//! The global enable/disable switch is an explicit, separately owned record
//! handed to `create_vault`, not implicit global state.

use vstd::prelude::*;
use crate::errors::VaultError;
use crate::stake::UserStake;
use crate::vault::THREE_YEARS_SECS;
use crate::vault::Vault;

verus! {

/// The singleton administrative record: who may retire the program, and
/// whether new vaults may still be created.
#[derive(Clone, Copy, PartialEq, Eq, Structural, Debug)]
pub struct GlobalState {
    /// Once set, `create_vault` refuses every request.
    pub new_vaults_disabled: bool,
    /// Opaque reference to the administrator.
    pub admin: u64,
}

/// A retirement record kept by some deployments alongside `GlobalState`.
#[derive(Clone, Copy, PartialEq, Eq, Structural, Debug)]
pub struct Config {
    /// Non-zero once new vaults are disabled.
    pub new_vaults_disabled: u8,
    /// Time at which the program was retired.
    pub retired_at: i64,
}

/// Creates the administrative record with creation enabled.
pub fn init_global_state(admin: u64) -> (s: GlobalState)
    ensures
        !s.new_vaults_disabled,
        s.admin == admin,
{
    GlobalState { new_vaults_disabled: false, admin }
}

/// Permanently disables creation of new vaults.  Only the recorded
/// administrator may do so.
pub fn disable_new_vaults(state: &mut GlobalState, caller: u64) -> (r: Result<(), VaultError>)
    ensures
        caller == old(state).admin ==> r is Ok,
        caller != old(state).admin ==> r == Err::<(), VaultError>(VaultError::Unauthorized),
        r is Ok ==> final(state).new_vaults_disabled && final(state).admin == old(state).admin,
        r is Err ==> *final(state) == *old(state),
{
    if caller != state.admin {
        return Err(VaultError::Unauthorized);
    }
    state.new_vaults_disabled = true;
    Ok(())
}

/// Decides whether an abandoned stake record may be reclaimed: the stake
/// must name the vault record in hand, and the long grace period after the
/// vault's term must have elapsed.  The storage reclamation itself is the
/// host's work.
///
/// `vault_ref` is the host's globally unique reference to the record it
/// resolved `vault` from (on chain, the vault account's address).  The
/// stake is matched against that reference: the caller-supplied sequence
/// number in `vault.id` is unique only per creator/asset pair and cannot
/// identify a vault on its own.
pub fn admin_close_expired_stake(
    vault: &Vault,
    vault_ref: u64,
    stake: &UserStake,
    now: i64,
) -> (r: Result<(), VaultError>)
    requires
        vault.end_time + THREE_YEARS_SECS <= i64::MAX,
    ensures
        r is Ok <==> stake.vault == vault_ref && now >= vault.end_time + THREE_YEARS_SECS,
        stake.vault != vault_ref ==> r == Err::<(), VaultError>(VaultError::Unauthorized),
        stake.vault == vault_ref && now < vault.end_time + THREE_YEARS_SECS ==> r == Err::<
            (),
            VaultError,
        >(VaultError::GraceNotElapsed),
{
    if stake.vault != vault_ref {
        return Err(VaultError::Unauthorized);
    }
    if now < vault.end_time + THREE_YEARS_SECS {
        return Err(VaultError::GraceNotElapsed);
    }
    Ok(())
}

} // verus!
