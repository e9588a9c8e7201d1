//! Capital pool ledger: pooled capital per risk tier, each provider's stake
//! and accrued yield, and the deposit / withdraw operations.
//!
//! Every operation is all-or-nothing: on any error it leaves the pool and the
//! provider record exactly as they were. Checked arithmetic that would
//! overflow is a fatal [`ErrorCode::NumericOverflow`], never a partial write.

use crate::errors::ErrorCode;
use crate::transfer::{AccountId, TransferRequest};
use vstd::prelude::*;

verus! {

use vstd::arithmetic::mul::lemma_mul_upper_bound;

/// Tier tag of the low-risk capital pool.
pub const CAPITAL_POOL_LOW_RISK: u8 = 1;

/// Tier tag of the medium-risk capital pool.
pub const CAPITAL_POOL_MEDIUM_RISK: u8 = 2;

/// Tier tag of the high-risk capital pool.
pub const CAPITAL_POOL_HIGH_RISK: u8 = 3;

/// Whether a tier tag names one of the three pool tiers.
pub open spec fn valid_pool_type(pool_type: u8) -> bool {
    pool_type == 1 || pool_type == 2 || pool_type == 3
}

/// One capital pool: all capital underwriting one risk tier.
#[derive(Clone, Copy, Debug, PartialEq, Eq, Structural)]
pub struct CapitalPool {
    /// Risk tier this pool underwrites.
    pub pool_type: u8,
    /// All capital on the pool's books.
    pub total_capital: u64,
    /// Capital free to back withdrawals and new claim approvals.
    pub available_capital: u64,
    /// Capital earmarked for approved claims.
    pub reserved_capital: u64,
    /// Annual yield paid to providers, in basis points.
    pub yield_rate_bps: u64,
    /// Quote asset the pool is denominated in.
    pub token_mint: AccountId,
    /// Custodial account holding the pool's funds.
    pub token_account: AccountId,
    /// Authority that created the pool.
    pub authority: AccountId,
}

impl CapitalPool {
    /// The books balance: every unit of capital is either available or
    /// reserved. Established at creation and preserved by every operation.
    pub open spec fn balanced(self) -> bool {
        self.total_capital == self.available_capital + self.reserved_capital
    }
}

/// The fields of a pool that no deposit, withdrawal or claim touches.
pub open spec fn same_pool_identity(a: CapitalPool, b: CapitalPool) -> bool {
    &&& a.pool_type == b.pool_type
    &&& a.yield_rate_bps == b.yield_rate_bps
    &&& a.token_mint == b.token_mint
    &&& a.token_account == b.token_account
    &&& a.authority == b.authority
}

/// One provider's position in one pool.
#[derive(Clone, Copy, Debug, PartialEq, Eq, Structural)]
pub struct CapitalProvider {
    /// Identity that owns the position.
    pub owner: AccountId,
    /// Current principal.
    pub capital_amount: u64,
    /// Key of the pool the position is in.
    pub pool: AccountId,
    /// Cumulative accrued yield (bookkeeping only, never disbursed here).
    pub rewards_earned: u64,
    /// When the accrual clock started, as a unix timestamp.
    pub deposit_time: i64,
}

impl CapitalProvider {
    /// A retired record: principal reached zero and every field was wiped so
    /// the host can reclaim the storage.
    pub open spec fn retired(self) -> bool {
        self == (CapitalProvider {
            owner: 0,
            capital_amount: 0,
            pool: 0,
            rewards_earned: 0,
            deposit_time: 0,
        })
    }
}

/// Whole days a position was held from `deposit_time` to `now`, floored, but
/// never less than one day: same-day withdrawal still accrues one day.
pub open spec fn days_held(deposit_time: i64, now: i64) -> int
    recommends
        0 <= deposit_time <= now,
{
    let days = (now - deposit_time) / 86400;
    if days < 1 {
        1
    } else {
        days
    }
}

/// Yield accrued by a position between `deposit_time` and `now`:
/// `(capital * rate / 10000) / 365 * days`, truncating at each division.
pub open spec fn accrued_rewards(
    capital_amount: u64,
    yield_rate_bps: u64,
    deposit_time: i64,
    now: i64,
) -> int {
    capital_amount * yield_rate_bps / 10000 / 365 * days_held(deposit_time, now)
}

/// Whether the yield bookkeeping of a withdrawal at `now` overflows a `u64`
/// at any of its checked steps.
pub open spec fn withdraw_overflows(provider: CapitalProvider, pool: CapitalPool, now: i64) -> bool {
    let rewards = accrued_rewards(
        provider.capital_amount,
        pool.yield_rate_bps,
        provider.deposit_time,
        now,
    );
    ||| provider.capital_amount * pool.yield_rate_bps > u64::MAX
    ||| rewards > u64::MAX
    ||| provider.rewards_earned + rewards > u64::MAX
}

/// Creates the zeroed capital pool of one risk tier.
///
/// Fails with `InvalidPoolType` unless the tier is Low, Medium or High; the
/// host keys the pool by its tier, so each tier exists at most once.
pub fn initialize_capital_pool(
    pool_type: u8,
    yield_rate_bps: u64,
    token_mint: AccountId,
    token_account: AccountId,
    authority: AccountId,
) -> (result: Result<CapitalPool, ErrorCode>)
    ensures
        result is Err <==> !valid_pool_type(pool_type),
        result matches Err(e) ==> e == ErrorCode::InvalidPoolType,
        result matches Ok(pool) ==> pool == (CapitalPool {
            pool_type,
            total_capital: 0,
            available_capital: 0,
            reserved_capital: 0,
            yield_rate_bps,
            token_mint,
            token_account,
            authority,
        }),
        result matches Ok(pool) ==> pool.balanced(),
{
    if !(pool_type == CAPITAL_POOL_LOW_RISK || pool_type == CAPITAL_POOL_MEDIUM_RISK || pool_type
        == CAPITAL_POOL_HIGH_RISK) {
        return Err(ErrorCode::InvalidPoolType);
    }
    Ok(
        CapitalPool {
            pool_type,
            total_capital: 0,
            available_capital: 0,
            reserved_capital: 0,
            yield_rate_bps,
            token_mint,
            token_account,
            authority,
        },
    )
}

/// Deposits `amount` into the pool for `owner`, opening a fresh provider
/// record whose accrual clock starts at `now`.
///
/// Credits the pool's total and available capital; overflow of either is
/// fatal and changes nothing. On success the host must move `amount` from
/// the owner's token account into pool custody as the returned request says,
/// and roll the records back if that transfer fails.
pub fn provide_capital(
    pool: &mut CapitalPool,
    pool_id: AccountId,
    owner: AccountId,
    provider_token: AccountId,
    amount: u64,
    now: i64,
) -> (result: Result<(CapitalProvider, TransferRequest), ErrorCode>)
    requires
        0 <= now,
    ensures
        result is Err <==> old(pool).total_capital + amount > u64::MAX || old(
            pool,
        ).available_capital + amount > u64::MAX,
        result matches Err(e) ==> e == ErrorCode::NumericOverflow && *final(pool) == *old(pool),
        result matches Ok((provider, transfer)) ==> {
            &&& provider == (CapitalProvider {
                owner,
                capital_amount: amount,
                pool: pool_id,
                rewards_earned: 0,
                deposit_time: now,
            })
            &&& transfer == (TransferRequest {
                from: provider_token,
                to: old(pool).token_account,
                authority: owner,
                amount,
            })
            &&& same_pool_identity(*old(pool), *final(pool))
            &&& final(pool).total_capital == old(pool).total_capital + amount
            &&& final(pool).available_capital == old(pool).available_capital + amount
            &&& final(pool).reserved_capital == old(pool).reserved_capital
        },
        old(pool).balanced() ==> final(pool).balanced(),
{
    if amount > u64::MAX - pool.total_capital {
        return Err(ErrorCode::NumericOverflow);
    }
    if amount > u64::MAX - pool.available_capital {
        return Err(ErrorCode::NumericOverflow);
    }
    pool.total_capital = pool.total_capital + amount;
    pool.available_capital = pool.available_capital + amount;
    let provider = CapitalProvider {
        owner,
        capital_amount: amount,
        pool: pool_id,
        rewards_earned: 0,
        deposit_time: now,
    };
    let transfer = TransferRequest {
        from: provider_token,
        to: pool.token_account,
        authority: owner,
        amount,
    };
    Ok((provider, transfer))
}

/// Withdraws `amount` of a provider's principal from the pool.
///
/// First accrues yield for the whole days held (at least one) into
/// `rewards_earned` — bookkeeping only, nothing is disbursed for it — then
/// debits the provider's principal and the pool's total and available
/// capital. Fails with `InsufficientPoolCapital` or
/// `InsufficientProviderCapital` when `amount` exceeds the respective
/// balance, and with `NumericOverflow` when the yield bookkeeping overflows;
/// on any error nothing changes. A withdrawal of the whole principal retires
/// the record: every field is wiped, accrued rewards included, and the host
/// reclaims the storage. On success the host must move `amount` out of pool
/// custody under the pool's own authority, as the returned request says.
pub fn withdraw_capital(
    pool: &mut CapitalPool,
    pool_id: AccountId,
    provider: &mut CapitalProvider,
    provider_token: AccountId,
    amount: u64,
    now: i64,
) -> (result: Result<TransferRequest, ErrorCode>)
    requires
        0 <= old(provider).deposit_time <= now,
        old(pool).balanced(),
    ensures
        final(pool).balanced(),
        result is Err ==> *final(pool) == *old(pool) && *final(provider) == *old(provider),
        (result matches Err(e) && e == ErrorCode::NumericOverflow) <==> withdraw_overflows(
            *old(provider),
            *old(pool),
            now,
        ),
        (result matches Err(e) && e == ErrorCode::InsufficientPoolCapital) <==> {
            &&& !withdraw_overflows(*old(provider), *old(pool), now)
            &&& amount > old(pool).available_capital
        },
        (result matches Err(e) && e == ErrorCode::InsufficientProviderCapital) <==> {
            &&& !withdraw_overflows(*old(provider), *old(pool), now)
            &&& amount <= old(pool).available_capital
            &&& amount > old(provider).capital_amount
        },
        result is Ok <==> {
            &&& !withdraw_overflows(*old(provider), *old(pool), now)
            &&& amount <= old(pool).available_capital
            &&& amount <= old(provider).capital_amount
        },
        result matches Ok(transfer) ==> {
            let rewards = accrued_rewards(
                old(provider).capital_amount,
                old(pool).yield_rate_bps,
                old(provider).deposit_time,
                now,
            );
            &&& !withdraw_overflows(*old(provider), *old(pool), now)
            &&& amount <= old(pool).available_capital
            &&& amount <= old(provider).capital_amount
            &&& same_pool_identity(*old(pool), *final(pool))
            &&& final(pool).total_capital == old(pool).total_capital - amount
            &&& final(pool).available_capital == old(pool).available_capital - amount
            &&& final(pool).reserved_capital == old(pool).reserved_capital
            &&& transfer == (TransferRequest {
                from: old(pool).token_account,
                to: provider_token,
                authority: pool_id,
                amount,
            })
            &&& amount < old(provider).capital_amount ==> *final(provider) == (CapitalProvider {
                owner: old(provider).owner,
                capital_amount: (old(provider).capital_amount - amount) as u64,
                pool: old(provider).pool,
                rewards_earned: (old(provider).rewards_earned + rewards) as u64,
                deposit_time: old(provider).deposit_time,
            })
            &&& amount == old(provider).capital_amount ==> final(provider).retired()
        },
{
    // Accrue yield for the whole days held, with a floor of one day.
    let time_held: i64 = now - provider.deposit_time;
    let days: u64 = (time_held as u64) / 86400;
    let days_held_now: u64 = if days < 1 {
        1
    } else {
        days
    };

    proof {
        lemma_mul_upper_bound(
            provider.capital_amount as int,
            u64::MAX as int,
            pool.yield_rate_bps as int,
            u64::MAX as int,
        );
    }
    let annual_yield_wide: u128 = (provider.capital_amount as u128) * (pool.yield_rate_bps as u128);
    if annual_yield_wide > u64::MAX as u128 {
        return Err(ErrorCode::NumericOverflow);
    }
    let annual_yield: u64 = (annual_yield_wide as u64) / 10000;
    let daily_yield: u64 = annual_yield / 365;
    proof {
        lemma_mul_upper_bound(
            daily_yield as int,
            u64::MAX as int,
            days_held_now as int,
            u64::MAX as int,
        );
    }
    let rewards_wide: u128 = (daily_yield as u128) * (days_held_now as u128);
    if rewards_wide > u64::MAX as u128 {
        return Err(ErrorCode::NumericOverflow);
    }
    let rewards: u64 = rewards_wide as u64;
    if rewards > u64::MAX - provider.rewards_earned {
        return Err(ErrorCode::NumericOverflow);
    }

    if amount > pool.available_capital {
        return Err(ErrorCode::InsufficientPoolCapital);
    }
    if amount > provider.capital_amount {
        return Err(ErrorCode::InsufficientProviderCapital);
    }

    provider.rewards_earned = provider.rewards_earned + rewards;
    provider.capital_amount = provider.capital_amount - amount;
    pool.total_capital = pool.total_capital - amount;
    pool.available_capital = pool.available_capital - amount;

    let transfer = TransferRequest {
        from: pool.token_account,
        to: provider_token,
        authority: pool_id,
        amount,
    };

    // A position drained to zero is retired: the record is wiped so the host
    // can reclaim its storage.
    if provider.capital_amount == 0 {
        provider.owner = 0;
        provider.pool = 0;
        provider.rewards_earned = 0;
        provider.deposit_time = 0;
    }
    Ok(transfer)
}

/// Law: in a balanced pool neither available nor reserved capital can exceed
/// the total, so the books never promise more than they hold.
pub proof fn lemma_balanced_capital_bounds(pool: CapitalPool)
    requires
        pool.balanced(),
    ensures
        pool.available_capital <= pool.total_capital,
        pool.reserved_capital <= pool.total_capital,
{
}

} // verus!
