//! Per-vault configuration and emission/accrual state.

use vstd::prelude::*;

verus! {

/// Fixed term of every vault, in seconds (182 days).
pub const TERM_SECS: i64 = 15_724_800;

/// Flat creation fee charged to the creator, in the base settlement asset.
pub const CREATION_FEE_LAMPORTS: u64 = 100_000_000;

/// Reward skim charged at creation, in basis points (3%).
pub const FEE_BPS: u64 = 300;

/// Denominator of the basis-point skim.
pub const FEE_DENOM: u64 = 10_000;

/// Fixed-point scale of `acc_reward_per_token` (1e12).
pub const RPT_SCALE: u128 = 1_000_000_000_000;

/// Fixed-point scale of the emission rate, in fractional units per second (1e12).
pub const RATE_SCALE: u128 = 1_000_000_000_000;

/// Grace period before a forced closure may reclaim an abandoned vault.
pub const THREE_YEARS_SECS: i64 = 31_536_000 * 3;

/// One vault: immutable term parameters plus the mutable emission and
/// accrual cursors.  Account references are carried as opaque numeric
/// identifiers; resolving them to real custody accounts is the host's
/// concern.
#[derive(Clone, Copy, PartialEq, Eq, Structural, Debug)]
pub struct Vault {
    /// Caller-supplied sequence number; lets one creator/asset pair open
    /// several concurrent vaults.
    pub id: u64,
    /// Opaque reference to the creator.
    pub creator: u64,
    /// Opaque reference to the staked asset.
    pub mint: u64,
    /// First second of the term.
    pub start_time: i64,
    /// Last second of the term (`start_time + TERM_SECS`).
    pub end_time: i64,
    /// Units promised to stakers over the whole term.
    pub reward_net: u64,
    /// Protocol skim computed at creation.
    pub reward_fee: u64,
    /// Amount actually funded (`reward_net + reward_fee`).
    pub reward_gross: u64,
    /// Emission rate in fixed point: `reward_net * RATE_SCALE / TERM_SECS`.
    pub rate_fp: u128,
    /// Fractional emission carried over between advances (less than
    /// `RATE_SCALE` at rest).
    pub emission_acc_fp: u128,
    /// Integral units emitted so far; never exceeds `reward_net`.
    pub emitted: u64,
    /// High-water mark of the emission cursor, clamped to `end_time`.
    pub last_update_time: i64,
    /// Per-staked-unit reward accumulator, scaled by `RPT_SCALE`.
    pub acc_reward_per_token: u128,
    /// Units emitted while nobody was staked, awaiting distribution.
    pub unallocated: u64,
    /// Sum of all live participant stakes.
    pub total_staked: u64,
    /// Layout version of the record.
    pub version: u8,
}

impl Vault {
    /// Well-formedness of a vault's emission and accrual state.
    ///
    /// Constructors establish it and every operation preserves it; it is
    /// exactly what makes the engine's wide arithmetic overflow-free.
    pub open spec fn wf(self) -> bool {
        &&& self.end_time == self.start_time + TERM_SECS
        &&& self.start_time <= self.last_update_time <= self.end_time
        &&& self.rate_fp == self.reward_net * RATE_SCALE / (TERM_SECS as int)
        &&& self.emission_acc_fp < RATE_SCALE
        &&& self.emitted <= self.reward_net
        &&& self.unallocated <= self.emitted
        &&& self.acc_reward_per_token <= (self.emitted - self.unallocated) * RPT_SCALE
    }

    /// Units handed to the distributor so far: everything emitted except the
    /// backlog still parked in `unallocated`.
    pub open spec fn allocated(self) -> int {
        self.emitted - self.unallocated
    }
}

} // verus!
