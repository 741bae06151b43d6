//! One-time pool creation.

use vstd::prelude::*;

use crate::state::Config;
use crate::state::Pool;

verus! {

/// Create a pool: write the configuration record with the circuit breaker
/// clear, and establish empty vaults and an empty claim-token supply. The
/// two asset identifiers become immutable; the caller fixes the fee (in
/// basis points) and the optional privileged authority once and for all.
/// The surrounding ledger refuses a duplicate `seed`/asset-pair
/// combination before this logic runs.
pub fn initialize(
    seed: u64,
    fee: u16,
    authority: Option<u64>,
    mint_x: u64,
    mint_y: u64,
    config_bump: u8,
    lp_bump: u8,
) -> (pool: Pool)
    requires
        fee <= 10000,
        mint_x != mint_y,
    ensures
        pool.config == (Config {
            seed,
            authority,
            mint_x,
            mint_y,
            fee,
            locked: false,
            config_bump,
            lp_bump,
        }),
        pool.vault_x == 0,
        pool.vault_y == 0,
        pool.lp_supply == 0,
        pool.wf(),
        pool.funded_consistently(),
{
    Pool {
        config: Config { seed, authority, mint_x, mint_y, fee, locked: false, config_bump, lp_bump },
        vault_x: 0,
        vault_y: 0,
        lp_supply: 0,
    }
}

} // verus!
