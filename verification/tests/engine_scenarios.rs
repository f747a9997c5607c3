//! End-to-end scenarios through the emission engine and lifecycle.

use driplet_vaults::admin::GlobalState;
use driplet_vaults::emission::update_rewards;
use driplet_vaults::lifecycle::claim;
use driplet_vaults::lifecycle::create_vault;
use driplet_vaults::lifecycle::deposit;
use driplet_vaults::lifecycle::withdraw;
use driplet_vaults::lifecycle::VaultPolicy;
use driplet_vaults::stake::pending_rewards;
use driplet_vaults::stake::UserStake;
use driplet_vaults::vault::Vault;
use driplet_vaults::vault::TERM_SECS;

fn open_state() -> GlobalState {
    GlobalState { new_vaults_disabled: false, admin: 99 }
}

fn policy() -> VaultPolicy {
    VaultPolicy {
        enforce_deposit_window: true,
        forced_close: false,
        forced_close_grace_secs: 0,
        multi_vault_per_creator: true,
    }
}

fn fresh_stake(owner: u64, vault: u64) -> UserStake {
    UserStake { owner, vault, amount: 0, reward_debt: 0, initialized: 0 }
}

fn funded_vault() -> Vault {
    create_vault(&open_state(), 182_000_000, Some(0), 0, 1, 2, 3).unwrap()
}

#[test]
fn vault_creation_fields() {
    let v = funded_vault();
    assert_eq!(v.start_time, 0);
    assert_eq!(v.end_time, TERM_SECS);
    assert_eq!(v.reward_net, 182_000_000);
    assert_eq!(v.reward_fee, 5_460_000);
    assert_eq!(v.reward_gross, 187_460_000);
    assert_eq!(v.rate_fp, 11_574_074_074_074);
    assert_eq!(v.emitted, 0);
    assert_eq!(v.acc_reward_per_token, 0);
    assert_eq!(v.total_staked, 0);
    assert_eq!(v.last_update_time, 0);
}

#[test]
fn sole_staker_first_day() {
    // 182,000,000 units over 182 days; 1,000 staked from the start; after
    // one day the sole staker can claim the whole day's emission (one unit
    // still rides in the fractional carry).
    let mut v = funded_vault();
    let mut u = fresh_stake(10, 1);
    deposit(&mut v, &mut u, 1_000, 0, &policy()).unwrap();
    assert_eq!(u.amount, 1_000);
    assert_eq!(v.total_staked, 1_000);

    let net = v.reward_net;
    let paid = claim(&mut v, &mut u, net, 86_400).unwrap();
    assert_eq!(v.emitted, 999_999);
    assert_eq!(v.acc_reward_per_token, 999_999_000_000_000);
    assert_eq!(paid, 999_999);

    // nothing more is claimable until time moves again
    let paid_again = claim(&mut v, &mut u, net, 86_400).unwrap();
    assert_eq!(paid_again, 0);
}

#[test]
fn empty_half_term_then_midpoint_staker_takes_all() {
    // Pool empty for the first half of the term; one participant deposits
    // exactly at the midpoint and claims at term end: the backlog flush
    // hands them everything emitted, first and second half alike (one unit
    // of the funding never emits, staying behind as fractional carry).
    let mut v = funded_vault();
    let mut u = fresh_stake(11, 1);
    let midpoint = TERM_SECS / 2;

    deposit(&mut v, &mut u, 5_000, midpoint, &policy()).unwrap();
    assert_eq!(v.emitted, 90_999_999);
    assert_eq!(v.unallocated, 90_999_999);

    let net = v.reward_net;
    let paid = claim(&mut v, &mut u, net, TERM_SECS).unwrap();
    assert_eq!(v.unallocated, 0);
    assert_eq!(v.emitted, 181_999_999);
    assert_eq!(paid, 181_999_999);
}

#[test]
fn backlog_is_flushed_to_late_staker() {
    // Emission runs 1000 seconds into an empty pool and is parked; a
    // participant then stakes and, on the next advance, can claim the
    // parked units together with the fresh ones.
    let mut v = funded_vault();
    let mut u = fresh_stake(12, 1);

    update_rewards(&mut v, 1_000).unwrap();
    assert_eq!(v.unallocated, 11_574);
    assert_eq!(v.emitted, 11_574);

    deposit(&mut v, &mut u, 70, 1_000, &policy()).unwrap();
    update_rewards(&mut v, 1_001).unwrap();
    assert_eq!(v.unallocated, 0);
    assert_eq!(v.acc_reward_per_token, 165_500_000_000_000);

    let net = v.reward_net;
    let paid = claim(&mut v, &mut u, net, 1_001).unwrap();
    assert_eq!(paid, 11_585);
    assert_eq!(v.emitted, 11_585);
}

#[test]
fn advance_is_idempotent() {
    // Advancing twice to the same timestamp changes nothing the second time.
    let mut v = funded_vault();
    let mut u = fresh_stake(13, 1);
    deposit(&mut v, &mut u, 42, 0, &policy()).unwrap();

    update_rewards(&mut v, 12_345).unwrap();
    let snapshot = v;
    update_rewards(&mut v, 12_345).unwrap();
    assert_eq!(v, snapshot);

    // an earlier effective time is also a no-op
    update_rewards(&mut v, 12_000).unwrap();
    assert_eq!(v, snapshot);
}

#[test]
fn advance_past_end_is_capped() {
    let mut v = funded_vault();
    update_rewards(&mut v, TERM_SECS + 1_000_000).unwrap();
    assert_eq!(v.last_update_time, TERM_SECS);
    // everything except the last fractional unit has been emitted
    assert_eq!(v.emitted, 181_999_999);
    update_rewards(&mut v, TERM_SECS + 2_000_000).unwrap();
    assert_eq!(v.emitted, 181_999_999);
}

#[test]
fn equal_stakes_accrue_equally() {
    // Two participants staking equal amounts at the same time have equal
    // claimable balances at any common observation time.
    let mut v = funded_vault();
    let mut u1 = fresh_stake(21, 1);
    let mut u2 = fresh_stake(22, 1);
    deposit(&mut v, &mut u1, 1_000, 0, &policy()).unwrap();
    deposit(&mut v, &mut u2, 1_000, 0, &policy()).unwrap();

    update_rewards(&mut v, 864_000).unwrap();
    let pend_a = pending_rewards(u1.amount, u1.reward_debt, v.acc_reward_per_token);
    let pend_b = pending_rewards(u2.amount, u2.reward_debt, v.acc_reward_per_token);
    assert_eq!(pend_a, pend_b);
    assert_eq!(pend_a, 4_999_999);
    assert_eq!(v.emitted, 9_999_999);
}

#[test]
fn conservation_over_mixed_operations() {
    // Deposits, a withdrawal with claim, and a bare claim: at every point,
    // everything paid plus everything claimable stays within the funded
    // reward, and the emitted total never exceeds it.
    let net = 182_000_000u64;
    let mut v = funded_vault();
    let mut u1 = fresh_stake(31, 1);
    let mut u2 = fresh_stake(32, 1);
    let mut paid: u64 = 0;

    deposit(&mut v, &mut u1, 1_000, 0, &policy()).unwrap();
    deposit(&mut v, &mut u2, 3_000, 30 * 86_400, &policy()).unwrap();

    let p = withdraw(&mut v, &mut u1, 500, true, net, 60 * 86_400).unwrap();
    assert_eq!(p, 37_499_999);
    paid += p;
    assert_eq!(u1.amount, 500);
    assert_eq!(v.total_staked, 3_500);

    let p = claim(&mut v, &mut u2, net - paid, 90 * 86_400).unwrap();
    assert_eq!(p, 48_214_285);
    paid += p;

    update_rewards(&mut v, 100 * 86_400).unwrap();
    let s1 = pending_rewards(u1.amount, u1.reward_debt, v.acc_reward_per_token);
    let s2 = pending_rewards(u2.amount, u2.reward_debt, v.acc_reward_per_token);
    assert_eq!(paid + s1 + s2, 99_999_999);
    assert!(paid + s1 + s2 <= net);
    assert_eq!(v.emitted, 99_999_999);
    assert!(v.emitted <= net);
}

#[test]
fn cursors_never_decrease() {
    // Monotonicity of the accumulator, the emitted total, and the time
    // cursor across a mixed sequence of operations.
    let mut v = funded_vault();
    let mut u = fresh_stake(41, 1);
    let mut acc = v.acc_reward_per_token;
    let mut emitted = v.emitted;
    let mut last = v.last_update_time;

    let times = [0i64, 100, 100, 86_400, 86_400, 200_000, TERM_SECS, TERM_SECS + 5];
    for (k, now) in times.iter().enumerate() {
        match k % 3 {
            0 => {
                if *now <= v.end_time {
                    deposit(&mut v, &mut u, 10, *now, &policy()).unwrap();
                }
            }
            1 => {
                let net = v.reward_net;
                claim(&mut v, &mut u, net, *now).unwrap();
            }
            _ => {
                update_rewards(&mut v, *now).unwrap();
            }
        }
        assert!(v.acc_reward_per_token >= acc);
        assert!(v.emitted >= emitted);
        assert!(v.last_update_time >= last);
        acc = v.acc_reward_per_token;
        emitted = v.emitted;
        last = v.last_update_time;
    }
}

#[test]
fn deposit_without_window_check_is_allowed_late() {
    // The permissive variant omits the deposit-window check.
    let lax = VaultPolicy { enforce_deposit_window: false, ..policy() };
    let mut v = funded_vault();
    let mut u = fresh_stake(51, 1);
    deposit(&mut v, &mut u, 5, TERM_SECS + 10, &lax).unwrap();
    assert_eq!(u.amount, 5);
}
