//! The swap operation: pay one asset in, receive the other at the
//! curve-determined price.

use vstd::prelude::*;

use crate::curve;
use crate::curve::spec_effective_in;
use crate::curve::spec_out_reserve_after;
use crate::curve::spec_swap_out;
use crate::error::AmmError;
use crate::state::Pool;
use crate::state::UserAccounts;

verus! {

/// Complete outcome of a swap against a given pool and caller state:
/// either the rejecting error, in order of validation, or the fully
/// committed post-state. `is_x` selects the asset being supplied; the
/// trader is charged the full `amount` while only the fee-adjusted part
/// is credited to the curve, which is how the fee stays in the pool.
pub open spec fn spec_swap(
    pool: Pool,
    user: UserAccounts,
    is_x: bool,
    amount: u64,
    min: u64,
) -> Result<(Pool, UserAccounts), AmmError> {
    if amount == 0 {
        Err(AmmError::InvalidAmount)
    } else if pool.config.locked {
        Err(AmmError::PoolLocked)
    } else {
        let in_r = pool.reserve_in(is_x) as int;
        let out_r = pool.reserve_out(is_x) as int;
        let fee = pool.config.fee as int;
        if in_r == 0 && spec_effective_in(amount as int, fee) == 0 {
            Err(AmmError::DivisionError)
        } else {
            let out = spec_swap_out(in_r, out_r, amount as int, fee);
            if out == 0 {
                Err(AmmError::InvalidAmount)
            } else if out < min {
                Err(AmmError::SlippageExceeded)
            } else if !pool.can_deposit_tokens(user, is_x, amount) {
                Err(AmmError::TransferFailed)
            } else if !pool.can_withdraw_tokens(user, is_x, out as u64) {
                Err(AmmError::TransferFailed)
            } else {
                Ok(
                    (
                        (if is_x {
                            Pool {
                                vault_x: (pool.vault_x + amount) as u64,
                                vault_y: (pool.vault_y - out) as u64,
                                ..pool
                            }
                        } else {
                            Pool {
                                vault_x: (pool.vault_x - out) as u64,
                                vault_y: (pool.vault_y + amount) as u64,
                                ..pool
                            }
                        }),
                        (if is_x {
                            UserAccounts {
                                token_x: (user.token_x - amount) as u64,
                                token_y: (user.token_y + out) as u64,
                                ..user
                            }
                        } else {
                            UserAccounts {
                                token_x: (user.token_x + out) as u64,
                                token_y: (user.token_y - amount) as u64,
                                ..user
                            }
                        }),
                    ),
                )
            }
        }
    }
}

impl Pool {
    /// Swap `amount` of the supplied asset (`is_x` selects it) for the
    /// other asset.
    ///
    /// Orchestration: validate the amount positive and the pool unlocked;
    /// snapshot the reserves and fee; price the output by the fee-adjusted
    /// constant-product rule; reject a dust trade whose output rounds to
    /// zero; enforce the caller's minimum-output floor `min`; validate both
    /// transfers before issuing either, so the two-step effect commits or
    /// aborts as a unit; then move the input in and pay the output out
    /// under the pool's own authority. The result and the post-state are
    /// exactly `spec_swap`'s, and any error leaves pool and caller
    /// untouched.
    pub fn swap(&mut self, user: &mut UserAccounts, is_x: bool, amount: u64, min: u64) -> (r:
        Result<(), AmmError>)
        requires
            old(self).wf(),
        ensures
            (match spec_swap(*old(self), *old(user), is_x, amount, min) {
                Ok(st) => r is Ok && *final(self) == st.0 && *final(user) == st.1,
                Err(e) => r == Err::<(), AmmError>(e) && *final(self) == *old(self) && *final(user)
                    == *old(user),
            }),
            r is Err ==> *final(self) == *old(self) && *final(user) == *old(user),
            final(self).config == old(self).config,
            final(self).lp_supply == old(self).lp_supply,
    {
        if amount == 0 {
            return Err(AmmError::InvalidAmount);
        }
        if self.config.locked {
            return Err(AmmError::PoolLocked);
        }
        let reserve_in: u64 = if is_x {
            self.vault_x
        } else {
            self.vault_y
        };
        let reserve_out: u64 = if is_x {
            self.vault_y
        } else {
            self.vault_x
        };
        let out = match curve::swap_output(reserve_in, reserve_out, amount, self.config.fee) {
            Ok(o) => o,
            Err(e) => {
                return Err(e);
            },
        };
        if out == 0 {
            return Err(AmmError::InvalidAmount);
        }
        if out < min {
            return Err(AmmError::SlippageExceeded);
        }
        // Both effects are validated here, before either is issued: the
        // pay-out side can only fail on a caller-balance overflow, since
        // the curve never pays out more than the reserve holds.
        let balance_in: u64 = if is_x {
            user.token_x
        } else {
            user.token_y
        };
        let balance_out: u64 = if is_x {
            user.token_y
        } else {
            user.token_x
        };
        if !(balance_in >= amount && reserve_in <= u64::MAX - amount) {
            return Err(AmmError::TransferFailed);
        }
        if !(balance_out <= u64::MAX - out) {
            return Err(AmmError::TransferFailed);
        }
        match self.deposit_tokens(user, is_x, amount) {
            Ok(()) => (),
            Err(e) => {
                return Err(e);
            },
        }
        match self.withdraw_tokens(user, is_x, out) {
            Ok(()) => (),
            Err(e) => {
                return Err(e);
            },
        }
        Ok(())
    }
}

/// Rejection of the empty swap: whatever the pool state — locked or not,
/// and whatever the reserves, supply, fee and caller balances — supplying
/// zero input fails with `InvalidAmount`, and, by `swap`'s contract, an
/// erring swap changes nothing.
pub proof fn lemma_zero_swap_rejected(pool: Pool, user: UserAccounts, is_x: bool, min: u64)
    ensures
        spec_swap(pool, user, is_x, 0, min) == Err::<(Pool, UserAccounts), AmmError>(
            AmmError::InvalidAmount,
        ),
{
}

/// The constant-product invariant at the operation level: a successful
/// swap with a nonzero fee, on a pool whose reserve product covers the
/// square of the grown supplying reserve, never decreases the product of
/// the two vault balances.
pub proof fn lemma_swap_preserves_product(
    pool: Pool,
    user: UserAccounts,
    is_x: bool,
    amount: u64,
    min: u64,
)
    requires
        pool.wf(),
        pool.config.fee >= 1,
        pool.reserve_in(is_x) * pool.reserve_out(is_x) >= (pool.reserve_in(is_x) + amount) * (
        pool.reserve_in(is_x) + amount),
        spec_swap(pool, user, is_x, amount, min) is Ok,
    ensures
        ({
            let p2 = spec_swap(pool, user, is_x, amount, min)->Ok_0.0;
            p2.vault_x * p2.vault_y >= pool.vault_x * pool.vault_y
        }),
{
    let in_r = pool.reserve_in(is_x) as int;
    let out_r = pool.reserve_out(is_x) as int;
    let fee = pool.config.fee as int;
    let out = spec_swap_out(in_r, out_r, amount as int, fee);
    curve::lemma_swap_product_nondecreasing(in_r, out_r, amount as int, fee);
    let p2 = spec_swap(pool, user, is_x, amount, min)->Ok_0.0;
    assert(p2.vault_x * p2.vault_y == (in_r + amount) * (out_r - out)) by (nonlinear_arith)
        requires
            (is_x ==> p2.vault_x == in_r + amount && p2.vault_y == out_r - out),
            (!is_x ==> p2.vault_y == in_r + amount && p2.vault_x == out_r - out),
    ;
    assert(pool.vault_x * pool.vault_y == in_r * out_r) by (nonlinear_arith)
        requires
            (is_x ==> pool.vault_x == in_r && pool.vault_y == out_r),
            (!is_x ==> pool.vault_y == in_r && pool.vault_x == out_r),
    ;
}

/// A successful swap preserves the claim-token invariant: it never touches
/// the supply, and a pool the invariant allows to be empty cannot price a
/// trade at all — its curve either has a zero divisor or pays out nothing.
pub proof fn lemma_swap_preserves_funding(
    pool: Pool,
    user: UserAccounts,
    is_x: bool,
    amount: u64,
    min: u64,
)
    requires
        pool.funded_consistently(),
        spec_swap(pool, user, is_x, amount, min) is Ok,
    ensures
        spec_swap(pool, user, is_x, amount, min)->Ok_0.0.funded_consistently(),
{
    if pool.lp_supply == 0 {
        let fee = pool.config.fee as int;
        let eff = spec_effective_in(amount as int, fee);
        if eff != 0 {
            let den = 0int + eff;
            vstd::arithmetic::div_mod::lemma_div_of0(den);
            assert((0int * 0int) == 0int);
            assert(spec_out_reserve_after(0, 0, amount as int, fee) == (0int * 0int) / den);
            assert(spec_swap_out(0, 0, amount as int, fee) == 0);
        }
        assert(false);
    }
}

} // verus!
