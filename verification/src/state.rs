//! Durable pool state and the token-movement primitives it is mutated
//! through.
//!
//! The surrounding ledger holds the two reserve vaults and the claim-token
//! supply as accounts owned by the pool's derived authority; here they are
//! modelled as the plain balances the curve reads. A transfer or mint is a
//! deterministic checked balance move: it succeeds exactly when the paying
//! balance covers the amount and the receiving balance does not overflow
//! its native 64-bit width, and it changes nothing when it fails.

use vstd::prelude::*;

use crate::error::AmmError;

verus! {

/// Pool configuration record, written once at pool creation. `locked` is
/// the only field an (out-of-scope) admin operation mutates afterwards.
/// Asset identifiers and the pool authority are opaque ledger addresses,
/// carried here as plain integer identifiers; only their equality matters
/// to the accounting core.
#[derive(Clone, Copy, Debug, PartialEq, Eq)]
pub struct Config {
    /// Disambiguates pools over the same asset pair.
    pub seed: u64,
    /// Optional privileged party; `None` means the pool is unmanaged.
    pub authority: Option<u64>,
    /// Identifier of the first tradable asset; immutable, order matters.
    pub mint_x: u64,
    /// Identifier of the second tradable asset; immutable.
    pub mint_y: u64,
    /// Swap fee in basis points, withheld from the input side.
    pub fee: u16,
    /// Global circuit breaker: when set, deposit and swap are refused.
    pub locked: bool,
    /// Derivation nonce of the pool's own address.
    pub config_bump: u8,
    /// Derivation nonce of the claim-token's address.
    pub lp_bump: u8,
}

impl Config {
    /// Configuration invariant: two distinct assets, fee within the
    /// basis-point range.
    pub open spec fn wf(self) -> bool {
        &&& self.mint_x != self.mint_y
        &&& self.fee <= 10000
    }
}

/// Live accounting state of one pool: the configuration record, the two
/// reserve vault balances, and the outstanding claim-token supply. These
/// are created together at pool initialization and persist for the pool's
/// lifetime.
#[derive(Clone, Copy, Debug, PartialEq, Eq)]
pub struct Pool {
    pub config: Config,
    /// Balance of the vault holding the first asset.
    pub vault_x: u64,
    /// Balance of the vault holding the second asset.
    pub vault_y: u64,
    /// Outstanding supply of the claim token (decimal precision 6).
    pub lp_supply: u64,
}

impl Pool {
    /// A pool is well formed when its configuration is.
    pub open spec fn wf(self) -> bool {
        self.config.wf()
    }

    /// Claim-token invariant: the supply is zero exactly when both vaults
    /// are empty. Established at creation and preserved by every
    /// operation whose bootstrap deposit moves a nonzero amount on both
    /// legs.
    pub open spec fn funded_consistently(self) -> bool {
        self.lp_supply == 0 <==> (self.vault_x == 0 && self.vault_y == 0)
    }

    /// The reserve whose asset a swap supplies.
    pub open spec fn reserve_in(self, is_x: bool) -> u64 {
        if is_x {
            self.vault_x
        } else {
            self.vault_y
        }
    }

    /// The reserve whose asset a swap pays out.
    pub open spec fn reserve_out(self, is_x: bool) -> u64 {
        if is_x {
            self.vault_y
        } else {
            self.vault_x
        }
    }
}

/// The caller's balances in the three tokens a pool touches: the two
/// tradable assets and the claim token.
#[derive(Clone, Copy, Debug, PartialEq, Eq)]
pub struct UserAccounts {
    pub token_x: u64,
    pub token_y: u64,
    pub token_lp: u64,
}

impl UserAccounts {
    /// The caller-side balance of the asset a swap supplies.
    pub open spec fn balance_in(self, is_x: bool) -> u64 {
        if is_x {
            self.token_x
        } else {
            self.token_y
        }
    }

    /// The caller-side balance of the asset a swap pays out.
    pub open spec fn balance_out(self, is_x: bool) -> u64 {
        if is_x {
            self.token_y
        } else {
            self.token_x
        }
    }
}

impl Pool {
    /// The transfer moving `amount` of one asset from the caller into the
    /// matching vault can be honoured.
    pub open spec fn can_deposit_tokens(self, user: UserAccounts, is_x: bool, amount: u64) -> bool {
        &&& user.balance_in(is_x) >= amount
        &&& self.reserve_in(is_x) + amount <= u64::MAX
    }

    /// The transfer paying `amount` of the other asset out of the vault
    /// back to the caller can be honoured. `is_x` names the asset the
    /// caller supplied, so the pay-out comes from the opposite vault.
    pub open spec fn can_withdraw_tokens(self, user: UserAccounts, is_x: bool, amount: u64) -> bool {
        &&& self.reserve_out(is_x) >= amount
        &&& user.balance_out(is_x) + amount <= u64::MAX
    }

    /// Issuing `amount` claim tokens to the caller can be honoured.
    pub open spec fn can_mint_lp_tokens(self, user: UserAccounts, amount: u64) -> bool {
        &&& self.lp_supply + amount <= u64::MAX
        &&& user.token_lp + amount <= u64::MAX
    }

    /// Transfer `amount` of one asset from the caller's account into the
    /// matching vault (`is_x` selects the asset). Models the ledger's
    /// transfer primitive: all-or-nothing, failing with `TransferFailed`
    /// exactly when the caller's balance is short or the vault would
    /// overflow.
    pub fn deposit_tokens(&mut self, user: &mut UserAccounts, is_x: bool, amount: u64) -> (r:
        Result<(), AmmError>)
        ensures
            old(self).can_deposit_tokens(*old(user), is_x, amount) ==> r is Ok,
            (match r {
                Ok(()) => {
                    &&& old(self).can_deposit_tokens(*old(user), is_x, amount)
                    &&& *final(self) == (if is_x {
                        Pool { vault_x: (old(self).vault_x + amount) as u64, ..*old(self) }
                    } else {
                        Pool { vault_y: (old(self).vault_y + amount) as u64, ..*old(self) }
                    })
                    &&& *final(user) == (if is_x {
                        UserAccounts { token_x: (old(user).token_x - amount) as u64, ..*old(user) }
                    } else {
                        UserAccounts { token_y: (old(user).token_y - amount) as u64, ..*old(user) }
                    })
                },
                Err(e) => {
                    &&& e == AmmError::TransferFailed
                    &&& !old(self).can_deposit_tokens(*old(user), is_x, amount)
                    &&& *final(self) == *old(self)
                    &&& *final(user) == *old(user)
                },
            }),
    {
        if is_x {
            if !(user.token_x >= amount && self.vault_x <= u64::MAX - amount) {
                return Err(AmmError::TransferFailed);
            }
            user.token_x = user.token_x - amount;
            self.vault_x = self.vault_x + amount;
        } else {
            if !(user.token_y >= amount && self.vault_y <= u64::MAX - amount) {
                return Err(AmmError::TransferFailed);
            }
            user.token_y = user.token_y - amount;
            self.vault_y = self.vault_y + amount;
        }
        Ok(())
    }

    /// Transfer `amount` of the other asset out of the vault back to the
    /// caller, authorized by the pool's derived signing authority. `is_x`
    /// names the asset the caller supplied, so the pay-out leaves the
    /// opposite vault. All-or-nothing, failing with `TransferFailed`
    /// exactly when the vault is short or the caller's balance would
    /// overflow.
    pub fn withdraw_tokens(&mut self, user: &mut UserAccounts, is_x: bool, amount: u64) -> (r:
        Result<(), AmmError>)
        ensures
            old(self).can_withdraw_tokens(*old(user), is_x, amount) ==> r is Ok,
            (match r {
                Ok(()) => {
                    &&& old(self).can_withdraw_tokens(*old(user), is_x, amount)
                    &&& *final(self) == (if is_x {
                        Pool { vault_y: (old(self).vault_y - amount) as u64, ..*old(self) }
                    } else {
                        Pool { vault_x: (old(self).vault_x - amount) as u64, ..*old(self) }
                    })
                    &&& *final(user) == (if is_x {
                        UserAccounts { token_y: (old(user).token_y + amount) as u64, ..*old(user) }
                    } else {
                        UserAccounts { token_x: (old(user).token_x + amount) as u64, ..*old(user) }
                    })
                },
                Err(e) => {
                    &&& e == AmmError::TransferFailed
                    &&& !old(self).can_withdraw_tokens(*old(user), is_x, amount)
                    &&& *final(self) == *old(self)
                    &&& *final(user) == *old(user)
                },
            }),
    {
        if is_x {
            if !(self.vault_y >= amount && user.token_y <= u64::MAX - amount) {
                return Err(AmmError::TransferFailed);
            }
            self.vault_y = self.vault_y - amount;
            user.token_y = user.token_y + amount;
        } else {
            if !(self.vault_x >= amount && user.token_x <= u64::MAX - amount) {
                return Err(AmmError::TransferFailed);
            }
            self.vault_x = self.vault_x - amount;
            user.token_x = user.token_x + amount;
        }
        Ok(())
    }

    /// Issue `amount` claim tokens to the caller, authorized by the pool's
    /// derived minting authority. Models the ledger's mint primitive:
    /// all-or-nothing, failing with `MintFailed` exactly when the supply or
    /// the caller's claim-token balance would overflow.
    pub fn mint_lp_tokens(&mut self, user: &mut UserAccounts, amount: u64) -> (r: Result<
        (),
        AmmError,
    >)
        ensures
            old(self).can_mint_lp_tokens(*old(user), amount) ==> r is Ok,
            (match r {
                Ok(()) => {
                    &&& old(self).can_mint_lp_tokens(*old(user), amount)
                    &&& *final(self) == (Pool {
                        lp_supply: (old(self).lp_supply + amount) as u64,
                        ..*old(self)
                    })
                    &&& *final(user) == (UserAccounts {
                        token_lp: (old(user).token_lp + amount) as u64,
                        ..*old(user)
                    })
                },
                Err(e) => {
                    &&& e == AmmError::MintFailed
                    &&& !old(self).can_mint_lp_tokens(*old(user), amount)
                    &&& *final(self) == *old(self)
                    &&& *final(user) == *old(user)
                },
            }),
    {
        if !(self.lp_supply <= u64::MAX - amount && user.token_lp <= u64::MAX - amount) {
            return Err(AmmError::MintFailed);
        }
        self.lp_supply = self.lp_supply + amount;
        user.token_lp = user.token_lp + amount;
        Ok(())
    }
}

} // verus!
