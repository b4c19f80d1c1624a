//! The pool's reserves against what its vaults hold.
//!
//! The exchange keeps its own count of both vaults and never asks the token
//! programs what the vaults hold. This module shows that the count is right:
//! from the moment a pool is set up, and after every call that follows, each
//! reserve equals the balance of its vault, as long as the host does its
//! part. The host's part is to carry out the transfers that the steps of a
//! call ask for, in their order, and to undo a call as a whole when a step or
//! a transfer fails.

use vstd::prelude::*;
use crate::init::{init_run, lemma_init_steps_reach_outcome, InitState, Initialize};
use crate::pool::Pool;
use crate::price::{Price, Side};
use crate::swap::{lemma_steps_reach_outcome, swap_run, SwapAccounts, SwapState};
use crate::transfer::Ledger;

verus! {

/// The pool's record together with the balances that the token programs keep.
pub struct World {
    pub pool: Pool,
    pub ledger: Ledger,
}

/// One call of `buy` or `sell`, as a caller makes it.
pub struct Call {
    pub side: Side,
    pub accounts: SwapAccounts,
    pub amount_in: u64,
}

impl Call {
    /// Whether the call is made with the pool's own two vaults, and with
    /// accounts of the caller that are none of them.
    pub open spec fn fits(self, pool: Pool) -> bool {
        &&& self.accounts.vault_token == pool.vault_token
        &&& self.accounts.vault_wsol == pool.vault_wsol
        &&& self.accounts.user_token != pool.vault_token
        &&& self.accounts.user_token != pool.vault_wsol
        &&& self.accounts.user_wsol != pool.vault_token
        &&& self.accounts.user_wsol != pool.vault_wsol
    }
}

impl World {
    /// Whether each reserve equals what its vault holds.
    pub open spec fn in_step(self) -> bool {
        &&& self.ledger.balance(self.pool.vault_token) == self.pool.reserve_token
        &&& self.ledger.balance(self.pool.vault_wsol) == self.pool.reserve_wsol
    }

    /// The world after a call: the host steps the swap through from `Idle`
    /// and carries out the transfers that the steps ask for. When a step
    /// fails, or a transfer cannot be carried out, the call is undone and the
    /// world stays as it was.
    pub open spec fn after_call(self, price: Price, call: Call) -> World {
        match swap_run(
            call.side,
            self.pool,
            call.accounts,
            price,
            SwapState::Idle,
            call.amount_in,
            5,
        ) {
            Ok((pool, _, transfers)) => match self.ledger.after_all(transfers) {
                Some(ledger) => World { pool, ledger },
                None => self,
            },
            Err(_) => self,
        }
    }

    /// The world after a sequence of calls, the first call first.
    pub open spec fn after_calls(self, price: Price, calls: Seq<Call>) -> World
        decreases calls.len(),
    {
        if calls.len() == 0 {
            self
        } else {
            self.after_calls(price, calls.drop_last()).after_call(price, calls.last())
        }
    }

    /// The world that setting a pool up leaves behind: the host steps the
    /// setting up through from `Start` and carries out the two seeding
    /// transfers. `None` when a step fails or a transfer cannot be carried
    /// out: then no pool has come to be.
    pub open spec fn set_up(
        ledger: Ledger,
        ctx: Initialize,
        amount_token: u64,
        amount_wsol: u64,
    ) -> Option<World> {
        match init_run(ctx, InitState::Start, amount_token, amount_wsol, 4) {
            Ok((pool, _, transfers)) => match ledger.after_all(transfers) {
                Some(ledger_after) => Some(World { pool, ledger: ledger_after }),
                None => None,
            },
            Err(_) => None,
        }
    }
}

/// Whether the accounts of a setting up are fit for it: the two vaults are
/// two accounts, they are new and hold nothing, and the administrator's
/// accounts are none of them.
pub open spec fn fresh_vaults(ledger: Ledger, ctx: Initialize) -> bool {
    &&& ctx.vault_token != ctx.vault_wsol
    &&& ctx.user_token != ctx.vault_token
    &&& ctx.user_token != ctx.vault_wsol
    &&& ctx.user_wsol != ctx.vault_token
    &&& ctx.user_wsol != ctx.vault_wsol
    &&& ledger.balance(ctx.vault_token) == 0
    &&& ledger.balance(ctx.vault_wsol) == 0
}

/// A pool that has been set up with new vaults has its reserves in step with
/// them: each vault holds its seed, and each reserve says so.
pub proof fn lemma_set_up_in_step(
    ledger: Ledger,
    ctx: Initialize,
    amount_token: u64,
    amount_wsol: u64,
)
    requires
        fresh_vaults(ledger, ctx),
        World::set_up(ledger, ctx, amount_token, amount_wsol) is Some,
    ensures
        ({
            let world = World::set_up(ledger, ctx, amount_token, amount_wsol)->Some_0;
            &&& world.in_step()
            &&& world.pool == ctx.recorded(amount_token, amount_wsol)
        }),
{
    lemma_init_steps_reach_outcome(ctx, amount_token, amount_wsol);
    reveal_with_fuel(Ledger::after_all, 3);
}

/// A call made with the pool's own vaults keeps the reserves in step with
/// them, whether it goes through or not, and never touches the pool's
/// identities.
pub proof fn lemma_call_keeps_in_step(world: World, price: Price, call: Call)
    requires
        world.in_step(),
        world.pool.vault_token != world.pool.vault_wsol,
        call.fits(world.pool),
    ensures
        world.after_call(price, call).in_step(),
        world.after_call(price, call).pool == (Pool {
            reserve_token: world.after_call(price, call).pool.reserve_token,
            reserve_wsol: world.after_call(price, call).pool.reserve_wsol,
            ..world.pool
        }),
{
    lemma_steps_reach_outcome(call.side, world.pool, call.accounts, price, call.amount_in);
    reveal_with_fuel(Ledger::after_all, 3);
}

/// From the setting up on, the reserves are in step with the vaults between
/// any two calls: whatever calls follow the setting up of a pool with new
/// vaults, and whether they go through or not, after each of them each
/// reserve equals what its vault holds, provided that every call was made
/// with the pool's own vaults.
pub proof fn lemma_reserves_track_vaults(
    ledger: Ledger,
    ctx: Initialize,
    amount_token: u64,
    amount_wsol: u64,
    price: Price,
    calls: Seq<Call>,
)
    requires
        fresh_vaults(ledger, ctx),
        World::set_up(ledger, ctx, amount_token, amount_wsol) is Some,
        forall|i: int|
            0 <= i < calls.len() ==> (#[trigger] calls[i]).fits(
                ctx.recorded(amount_token, amount_wsol),
            ),
    ensures
        forall|k: int|
            0 <= k <= calls.len() ==> (#[trigger] World::set_up(
                ledger,
                ctx,
                amount_token,
                amount_wsol,
            )->Some_0.after_calls(price, calls.take(k))).in_step(),
{
    lemma_set_up_in_step(ledger, ctx, amount_token, amount_wsol);
    let world = World::set_up(ledger, ctx, amount_token, amount_wsol)->Some_0;
    assert forall|k: int| 0 <= k <= calls.len() implies (#[trigger] world.after_calls(
        price,
        calls.take(k),
    )).in_step() by {
        let prefix = calls.take(k);
        assert forall|i: int| 0 <= i < prefix.len() implies (#[trigger] prefix[i]).fits(
            world.pool,
        ) by {
            assert(prefix[i] == calls[i]);
        }
        lemma_calls_keep_in_step(world, price, prefix);
    }
}

/// Calls made with the pool's own vaults keep the reserves in step with
/// them, however many there are, and never touch the pool's identities.
pub proof fn lemma_calls_keep_in_step(world: World, price: Price, calls: Seq<Call>)
    requires
        world.in_step(),
        world.pool.vault_token != world.pool.vault_wsol,
        forall|i: int| 0 <= i < calls.len() ==> (#[trigger] calls[i]).fits(world.pool),
    ensures
        world.after_calls(price, calls).in_step(),
        world.after_calls(price, calls).pool == (Pool {
            reserve_token: world.after_calls(price, calls).pool.reserve_token,
            reserve_wsol: world.after_calls(price, calls).pool.reserve_wsol,
            ..world.pool
        }),
    decreases calls.len(),
{
    if calls.len() > 0 {
        let earlier = calls.drop_last();
        assert forall|i: int| 0 <= i < earlier.len() implies (#[trigger] earlier[i]).fits(
            world.pool,
        ) by {
            assert(earlier[i] == calls[i]);
        }
        lemma_calls_keep_in_step(world, price, earlier);
        let before = world.after_calls(price, earlier);
        assert(calls.last() == calls[calls.len() - 1]);
        assert(calls.last().fits(before.pool));
        lemma_call_keeps_in_step(before, price, calls.last());
    }
}

} // verus!
