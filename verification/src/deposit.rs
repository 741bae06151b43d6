//! The deposit operation: pay both assets in, receive claim tokens.

use vstd::prelude::*;

use crate::curve;
use crate::curve::spec_required_leg;
use crate::error::AmmError;
use crate::state::Pool;
use crate::state::UserAccounts;

verus! {

/// The pool has never been funded: the next deposit is the bootstrap
/// deposit, the one moment the caller sets the price ratio freely.
pub open spec fn spec_is_bootstrap(pool: Pool) -> bool {
    pool.lp_supply == 0 && pool.vault_x == 0 && pool.vault_y == 0
}

/// The two asset legs a deposit must move to issue `amount` claim units,
/// or the curve's error. The bootstrap deposit takes the caller's ceilings
/// themselves as the legs; any later deposit sizes them proportionally to
/// the current reserves, rounded up.
pub open spec fn spec_deposit_legs(pool: Pool, amount: u64, max_x: u64, max_y: u64) -> Result<
    (u64, u64),
    AmmError,
> {
    if spec_is_bootstrap(pool) {
        Ok((max_x, max_y))
    } else if pool.lp_supply == 0 {
        Err(AmmError::DivisionError)
    } else {
        let x = spec_required_leg(pool.vault_x as int, pool.lp_supply as int, amount as int);
        let y = spec_required_leg(pool.vault_y as int, pool.lp_supply as int, amount as int);
        if x > u64::MAX || y > u64::MAX {
            Err(AmmError::ArithmeticOverflow)
        } else {
            Ok((x as u64, y as u64))
        }
    }
}

/// Complete outcome of a deposit against a given pool and caller state:
/// either the rejecting error, in order of validation, or the fully
/// committed post-state. Both transfers and the claim-token issuance are
/// validated against the pre-state before anything moves, so a failed
/// operation leaves no trace.
pub open spec fn spec_deposit(
    pool: Pool,
    user: UserAccounts,
    amount: u64,
    max_x: u64,
    max_y: u64,
) -> Result<(Pool, UserAccounts), AmmError> {
    if amount == 0 {
        Err(AmmError::InvalidAmount)
    } else if pool.config.locked {
        Err(AmmError::PoolLocked)
    } else {
        match spec_deposit_legs(pool, amount, max_x, max_y) {
            Err(e) => Err(e),
            Ok(legs) => {
                let x = legs.0;
                let y = legs.1;
                if !(x <= max_x && y <= max_y) {
                    Err(AmmError::SlippageExceeded)
                } else if !pool.can_deposit_tokens(user, true, x) {
                    Err(AmmError::TransferFailed)
                } else if !pool.can_deposit_tokens(user, false, y) {
                    Err(AmmError::TransferFailed)
                } else if !pool.can_mint_lp_tokens(user, amount) {
                    Err(AmmError::MintFailed)
                } else {
                    Ok(
                        (
                            Pool {
                                vault_x: (pool.vault_x + x) as u64,
                                vault_y: (pool.vault_y + y) as u64,
                                lp_supply: (pool.lp_supply + amount) as u64,
                                ..pool
                            },
                            UserAccounts {
                                token_x: (user.token_x - x) as u64,
                                token_y: (user.token_y - y) as u64,
                                token_lp: (user.token_lp + amount) as u64,
                            },
                        ),
                    )
                }
            },
        }
    }
}

impl Pool {
    /// Deposit paired assets and mint exactly `amount` claim tokens to the
    /// caller.
    ///
    /// Orchestration: validate the amount nonzero and the pool unlocked;
    /// size the two asset legs (bootstrap or proportional); enforce the
    /// caller's slippage ceilings `max_x`/`max_y`; validate every transfer
    /// before issuing any, so the three-step effect commits or aborts as a
    /// unit; then move both assets in and mint the claim tokens out. The
    /// result and the post-state are exactly `spec_deposit`'s, and any
    /// error leaves pool and caller untouched.
    pub fn deposit(&mut self, user: &mut UserAccounts, amount: u64, max_x: u64, max_y: u64) -> (r:
        Result<(), AmmError>)
        ensures
            (match spec_deposit(*old(self), *old(user), amount, max_x, max_y) {
                Ok(st) => r is Ok && *final(self) == st.0 && *final(user) == st.1,
                Err(e) => r == Err::<(), AmmError>(e) && *final(self) == *old(self) && *final(user)
                    == *old(user),
            }),
            r is Err ==> *final(self) == *old(self) && *final(user) == *old(user),
            final(self).config == old(self).config,
    {
        if amount == 0 {
            return Err(AmmError::InvalidAmount);
        }
        if self.config.locked {
            return Err(AmmError::PoolLocked);
        }
        let bootstrap = self.lp_supply == 0 && self.vault_x == 0 && self.vault_y == 0;
        let legs: (u64, u64) = if bootstrap {
            (max_x, max_y)
        } else {
            match curve::deposit_amounts_from_claim(
                self.vault_x,
                self.vault_y,
                self.lp_supply,
                amount,
            ) {
                Ok(p) => p,
                Err(e) => {
                    return Err(e);
                },
            }
        };
        let x = legs.0;
        let y = legs.1;
        if !(x <= max_x && y <= max_y) {
            return Err(AmmError::SlippageExceeded);
        }
        // All three effects are validated here, before any of them is
        // issued: the ledger would roll a partly applied operation back,
        // and this core must never need it to.
        if !(user.token_x >= x && self.vault_x <= u64::MAX - x) {
            return Err(AmmError::TransferFailed);
        }
        if !(user.token_y >= y && self.vault_y <= u64::MAX - y) {
            return Err(AmmError::TransferFailed);
        }
        if !(self.lp_supply <= u64::MAX - amount && user.token_lp <= u64::MAX - amount) {
            return Err(AmmError::MintFailed);
        }
        match self.deposit_tokens(user, true, x) {
            Ok(()) => (),
            Err(e) => {
                return Err(e);
            },
        }
        match self.deposit_tokens(user, false, y) {
            Ok(()) => (),
            Err(e) => {
                return Err(e);
            },
        }
        match self.mint_lp_tokens(user, amount) {
            Ok(()) => (),
            Err(e) => {
                return Err(e);
            },
        }
        Ok(())
    }
}

/// Rejection of the empty deposit: whatever the pool state — locked or
/// not, and whatever the reserves, supply, fee and caller balances —
/// asking for zero claim units fails with `InvalidAmount`, and, by
/// `deposit`'s contract, an erring deposit changes nothing.
pub proof fn lemma_zero_deposit_rejected(pool: Pool, user: UserAccounts, max_x: u64, max_y: u64)
    ensures
        spec_deposit(pool, user, 0, max_x, max_y) == Err::<(Pool, UserAccounts), AmmError>(
            AmmError::InvalidAmount,
        ),
{
}

/// Bootstrap determinism: the first deposit into a pool with zero supply
/// and zero reserves takes exactly the caller's ceilings as the two legs
/// and mints exactly `amount`, and its slippage check cannot fail, since
/// required equals maximum by definition. The caller balances in the
/// premises are what makes the three transfers honourable at all.
pub proof fn lemma_bootstrap_deposit(
    pool: Pool,
    user: UserAccounts,
    amount: u64,
    max_x: u64,
    max_y: u64,
)
    requires
        !pool.config.locked,
        amount > 0,
        spec_is_bootstrap(pool),
        user.token_x >= max_x,
        user.token_y >= max_y,
        user.token_lp + amount <= u64::MAX,
    ensures
        ({
            let r = spec_deposit(pool, user, amount, max_x, max_y);
            &&& r is Ok
            &&& r->Ok_0.0.vault_x == max_x
            &&& r->Ok_0.0.vault_y == max_y
            &&& r->Ok_0.0.lp_supply == amount
            &&& r->Ok_0.1.token_lp == user.token_lp + amount
        }),
{
}

/// The deposit-ratio law at the operation level: the legs a successful
/// non-bootstrap deposit moves sit, scaled by the claim supply, within one
/// rounding unit of the depositor's pro-rata share of each reserve, and
/// never below it — the depositor never pays less than the proportional
/// share.
pub proof fn lemma_deposit_ratio(
    pool: Pool,
    user: UserAccounts,
    amount: u64,
    max_x: u64,
    max_y: u64,
)
    requires
        !spec_is_bootstrap(pool),
        spec_deposit(pool, user, amount, max_x, max_y) is Ok,
    ensures
        ({
            let st = spec_deposit(pool, user, amount, max_x, max_y)->Ok_0;
            let x = st.0.vault_x - pool.vault_x;
            let y = st.0.vault_y - pool.vault_y;
            &&& amount * pool.vault_x <= pool.lp_supply * x < amount * pool.vault_x
                + pool.lp_supply
            &&& amount * pool.vault_y <= pool.lp_supply * y < amount * pool.vault_y
                + pool.lp_supply
        }),
{
    curve::lemma_deposit_proportional(pool.vault_x as int, pool.lp_supply as int, amount as int);
    curve::lemma_deposit_proportional(pool.vault_y as int, pool.lp_supply as int, amount as int);
}

/// A successful deposit preserves the claim-token invariant — supply and
/// reserves are zero only together — provided a bootstrap deposit funds
/// both vaults. (A bootstrap deposit with a zero ceiling on either side
/// mints claim units against an empty vault and breaks the invariant;
/// nothing in the operation itself forbids it.)
pub proof fn lemma_deposit_preserves_funding(
    pool: Pool,
    user: UserAccounts,
    amount: u64,
    max_x: u64,
    max_y: u64,
)
    requires
        pool.funded_consistently(),
        spec_is_bootstrap(pool) ==> max_x > 0 && max_y > 0,
        spec_deposit(pool, user, amount, max_x, max_y) is Ok,
    ensures
        spec_deposit(pool, user, amount, max_x, max_y)->Ok_0.0.funded_consistently(),
{
}

} // verus!
