//! Error taxonomy of the vault engine.
//!
//! Every error marks a precondition or invariant violation; a failing
//! operation aborts with no partial state change.

use vstd::prelude::*;

verus! {

#[derive(Clone, Copy, PartialEq, Eq, Structural, Debug)]
pub enum VaultError {
    /// A checked arithmetic step would exceed its integer domain.
    MathOverflow,
    /// A deposit, withdraw, or creation amount of zero was supplied.
    ZeroAmount,
    /// Vault closure attempted before the term end.
    NotEnded,
    /// Vault closure attempted while stake remains.
    StillStaked,
    /// Closure attempted while the escrow custody account retains a balance.
    EscrowNotEmpty,
    /// Withdrawal requested exceeds the participant's staked amount.
    InsufficientStake,
    /// Closure attempted while the reward custody account retains a balance
    /// after the sweep.
    RewardNotEmpty,
    /// A custody account does not match the vault's asset.
    BadMint,
    /// New vaults are disabled and the program is retired.
    ProgramRetired,
    /// Only the treasury may retire the program.
    NotTreasury,
    /// The program is already retired.
    AlreadyRetired,
    /// Forced closure or reclaim attempted before the grace period elapsed.
    GraceNotElapsed,
    /// Vault creation has been disabled by the administrator.
    VaultCreationDisabled,
    /// The caller is not authorized for this administrative action.
    Unauthorized,
    /// Deposit attempted outside the vault's active window.
    VaultEnded,
}

impl VaultError {
    /// A short description, for hosts that log errors.
    pub fn message(&self) -> (r: &'static str)
        ensures r@.len() > 0,
    {
        let m: &'static str = match self {
            VaultError::MathOverflow => "math overflow",
            VaultError::ZeroAmount => "amount must be greater than zero",
            VaultError::NotEnded => "vault term not finished",
            VaultError::StillStaked => "there is still stake in the vault",
            VaultError::EscrowNotEmpty => "escrow custody account is not empty",
            VaultError::InsufficientStake => "insufficient staked amount",
            VaultError::RewardNotEmpty => "reward custody account is not empty after sweep",
            VaultError::BadMint => "custody account does not match the vault asset",
            VaultError::ProgramRetired => "program is retired; new vaults are disabled",
            VaultError::NotTreasury => "only the treasury may retire",
            VaultError::AlreadyRetired => "already retired",
            VaultError::GraceNotElapsed => "grace period not yet elapsed",
            VaultError::VaultCreationDisabled => "vault creation has been disabled",
            VaultError::Unauthorized => "unauthorized action",
            VaultError::VaultEnded => "deposits are closed for this vault",
        };
        proof {
            reveal_strlit("math overflow");
            reveal_strlit("amount must be greater than zero");
            reveal_strlit("vault term not finished");
            reveal_strlit("there is still stake in the vault");
            reveal_strlit("escrow custody account is not empty");
            reveal_strlit("insufficient staked amount");
            reveal_strlit("reward custody account is not empty after sweep");
            reveal_strlit("custody account does not match the vault asset");
            reveal_strlit("program is retired; new vaults are disabled");
            reveal_strlit("only the treasury may retire");
            reveal_strlit("already retired");
            reveal_strlit("grace period not yet elapsed");
            reveal_strlit("vault creation has been disabled");
            reveal_strlit("unauthorized action");
            reveal_strlit("deposits are closed for this vault");
        }
        m
    }
}

} // verus!
