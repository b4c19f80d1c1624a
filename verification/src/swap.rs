//! The swap engine: one call of `buy` or `sell`, taken step by step.
//!
//! A swap moves the caller's payment into a vault, prices it, checks that the
//! pool can pay, moves the payout to the caller and books both in the pool's
//! reserves. The two transfers are the host's work. The engine therefore
//! never runs a call through by itself: given where the call stands, it
//! decides the next step and says what the host has to do before the step
//! after that.
//!
//! The host starts in [`SwapState::Idle`] and steps until it is told to
//! [`Action::Finish`], with the same side, accounts, rate and amount each
//! time. When a step asks for a transfer, the host carries it out before it
//! steps again. When a transfer or a step fails, the host gives the whole
//! call up, and everything that the call did so far is undone with it.

use vstd::prelude::*;
use crate::address::Address;
use crate::channel::TransferChannel;
use crate::error::DexError;
use crate::pool::Pool;
use crate::price::{Price, Side, PRICE_DEN_WS_PER_TOKEN, PRICE_NUM_WS_PER_TOKEN};
use crate::transfer::{xfer_checked, AuthoritySeeds, TransferRequest};

verus! {

/// What the host has to do once a step has been taken.
#[derive(Clone, Copy, Debug, PartialEq, Eq)]
pub enum Action {
    /// Carry out this transfer, then take the next step.
    Transfer(TransferRequest),
    /// Nothing; take the next step.
    Proceed,
    /// The call is complete.
    Finish,
}

/// How far a swap has come.
#[derive(Clone, Copy, Debug, PartialEq, Eq, Structural)]
pub enum SwapState {
    /// Nothing has happened yet.
    Idle,
    /// The caller's payment is in the vault.
    TransferredIn,
    /// The payout has been computed.
    Priced { amount_out: u64 },
    /// The payout is not zero and the pool's reserve covers it.
    LiquidityChecked { amount_out: u64 },
    /// The payout has reached the caller.
    TransferredOut { amount_out: u64 },
    /// The reserves have been brought up to date.
    Committed,
}

/// The accounts that take part in a swap.
#[derive(Clone, Copy, Debug, PartialEq, Eq)]
pub struct SwapAccounts {
    /// The caller, who signs for the payment.
    pub user: Address,
    /// The address of the pool's own record.
    pub pool_key: Address,
    /// The derived authority that owns both vaults.
    pub vault_authority: Address,
    /// The vault for tokens.
    pub vault_token: Address,
    /// The vault for wrapped SOL.
    pub vault_wsol: Address,
    /// The caller's token account.
    pub user_token: Address,
    /// The caller's wrapped-SOL account.
    pub user_wsol: Address,
    /// The mint of the token.
    pub mint_token: Address,
    /// The mint of wrapped SOL.
    pub mint_wsol: Address,
}

impl SwapAccounts {
    /// The transfer that brings the caller's payment into the vault. The
    /// caller signs for it.
    pub open spec fn transfer_in(self, side: Side, amount_in: u64, decimals: u8) -> TransferRequest {
        match side {
            Side::Buy => TransferRequest {
                channel: TransferChannel::Classic,
                from: self.user_wsol,
                to: self.vault_wsol,
                mint: self.mint_wsol,
                authority: self.user,
                signer_seeds: None,
                amount: amount_in,
                decimals,
            },
            Side::Sell => TransferRequest {
                channel: TransferChannel::Token2022,
                from: self.user_token,
                to: self.vault_token,
                mint: self.mint_token,
                authority: self.user,
                signer_seeds: None,
                amount: amount_in,
                decimals,
            },
        }
    }

    /// The transfer that brings the payout from the vault to the caller. The
    /// vault authority signs for it, derived from the pool's address and
    /// `bump`.
    pub open spec fn transfer_out(
        self,
        side: Side,
        amount_out: u64,
        decimals: u8,
        bump: u8,
    ) -> TransferRequest {
        let seeds = AuthoritySeeds { pool: self.pool_key, bump };
        match side {
            Side::Buy => TransferRequest {
                channel: TransferChannel::Token2022,
                from: self.vault_token,
                to: self.user_token,
                mint: self.mint_token,
                authority: self.vault_authority,
                signer_seeds: Some(seeds),
                amount: amount_out,
                decimals,
            },
            Side::Sell => TransferRequest {
                channel: TransferChannel::Classic,
                from: self.vault_wsol,
                to: self.user_wsol,
                mint: self.mint_wsol,
                authority: self.vault_authority,
                signer_seeds: Some(seeds),
                amount: amount_out,
                decimals,
            },
        }
    }
}

/// The step that follows `state`: the pool as the step leaves it, the state
/// that the swap is in once the host has done what the action asks, and that
/// action; or the reason why the call ends here.
///
/// - From `Idle` the payment is asked for.
/// - From `TransferredIn` the payout is computed at the rate.
/// - From `Priced` a payout of zero is refused, and so is one that the
///   reserve does not cover.
/// - From `LiquidityChecked` the payout is asked for.
/// - From `TransferredOut` the payment is added to one reserve and the payout
///   taken from the other, neither of which may leave the range of 64 bits.
/// - `Committed` is final.
pub open spec fn swap_next(
    side: Side,
    pool: Pool,
    accounts: SwapAccounts,
    price: Price,
    state: SwapState,
    amount_in: u64,
) -> Result<(Pool, SwapState, Action), DexError> {
    match state {
        SwapState::Idle => Ok(
            (
                pool,
                SwapState::TransferredIn,
                Action::Transfer(accounts.transfer_in(side, amount_in, pool.decimals)),
            ),
        ),
        SwapState::TransferredIn => match price.quote(side, amount_in) {
            Ok(amount_out) => Ok((pool, SwapState::Priced { amount_out }, Action::Proceed)),
            Err(e) => Err(e),
        },
        SwapState::Priced { amount_out } => if amount_out == 0 {
            Err(DexError::ZeroOutput)
        } else if pool.reserve_out(side) < amount_out {
            Err(DexError::InsufficientLiquidity)
        } else {
            Ok((pool, SwapState::LiquidityChecked { amount_out }, Action::Proceed))
        },
        SwapState::LiquidityChecked { amount_out } => Ok(
            (
                pool,
                SwapState::TransferredOut { amount_out },
                Action::Transfer(
                    accounts.transfer_out(side, amount_out, pool.decimals, pool.vault_bump),
                ),
            ),
        ),
        SwapState::TransferredOut { amount_out } => if pool.reserve_in(side) + amount_in
            > u64::MAX || pool.reserve_out(side) < amount_out {
            Err(DexError::MathOverflow)
        } else {
            Ok((pool.settled(side, amount_in, amount_out), SwapState::Committed, Action::Finish))
        },
        SwapState::Committed => Ok((pool, SwapState::Committed, Action::Finish)),
    }
}

/// Takes the step that follows `state` in a swap of `amount_in` on the given
/// side. On failure the pool is left as it was.
pub fn swap_step(
    side: Side,
    pool: &mut Pool,
    accounts: &SwapAccounts,
    price: &Price,
    state: SwapState,
    amount_in: u64,
) -> (res: Result<(SwapState, Action), DexError>)
    ensures
        match res {
            Ok((state_after, action)) => swap_next(
                side,
                *old(pool),
                *accounts,
                *price,
                state,
                amount_in,
            ) == Ok::<(Pool, SwapState, Action), DexError>((*final(pool), state_after, action)),
            Err(e) => swap_next(side, *old(pool), *accounts, *price, state, amount_in)
                == Err::<(Pool, SwapState, Action), DexError>(e) && *final(pool) == *old(pool),
        },
{
    match state {
        SwapState::Idle => {
            let request = match side {
                Side::Buy => xfer_checked(
                    TransferChannel::Classic,
                    &accounts.user_wsol,
                    &accounts.vault_wsol,
                    &accounts.mint_wsol,
                    &accounts.user,
                    None,
                    amount_in,
                    pool.decimals,
                ),
                Side::Sell => xfer_checked(
                    TransferChannel::Token2022,
                    &accounts.user_token,
                    &accounts.vault_token,
                    &accounts.mint_token,
                    &accounts.user,
                    None,
                    amount_in,
                    pool.decimals,
                ),
            };
            Ok((SwapState::TransferredIn, Action::Transfer(request)))
        },
        SwapState::TransferredIn => {
            match price.amount_out(side, amount_in) {
                Ok(amount_out) => Ok((SwapState::Priced { amount_out }, Action::Proceed)),
                Err(e) => Err(e),
            }
        },
        SwapState::Priced { amount_out } => {
            let reserve = match side {
                Side::Buy => pool.reserve_token,
                Side::Sell => pool.reserve_wsol,
            };
            if amount_out == 0 {
                Err(DexError::ZeroOutput)
            } else if reserve < amount_out {
                Err(DexError::InsufficientLiquidity)
            } else {
                Ok((SwapState::LiquidityChecked { amount_out }, Action::Proceed))
            }
        },
        SwapState::LiquidityChecked { amount_out } => {
            let seeds = AuthoritySeeds { pool: accounts.pool_key, bump: pool.vault_bump };
            let request = match side {
                Side::Buy => xfer_checked(
                    TransferChannel::Token2022,
                    &accounts.vault_token,
                    &accounts.user_token,
                    &accounts.mint_token,
                    &accounts.vault_authority,
                    Some(seeds),
                    amount_out,
                    pool.decimals,
                ),
                Side::Sell => xfer_checked(
                    TransferChannel::Classic,
                    &accounts.vault_wsol,
                    &accounts.user_wsol,
                    &accounts.mint_wsol,
                    &accounts.vault_authority,
                    Some(seeds),
                    amount_out,
                    pool.decimals,
                ),
            };
            Ok((SwapState::TransferredOut { amount_out }, Action::Transfer(request)))
        },
        SwapState::TransferredOut { amount_out } => {
            let (reserve_in, reserve_out) = match side {
                Side::Buy => (pool.reserve_wsol, pool.reserve_token),
                Side::Sell => (pool.reserve_token, pool.reserve_wsol),
            };
            let grown = match reserve_in.checked_add(amount_in) {
                Some(r) => r,
                None => {
                    return Err(DexError::MathOverflow);
                },
            };
            let shrunk = match reserve_out.checked_sub(amount_out) {
                Some(r) => r,
                None => {
                    return Err(DexError::MathOverflow);
                },
            };
            match side {
                Side::Buy => {
                    pool.reserve_wsol = grown;
                    pool.reserve_token = shrunk;
                },
                Side::Sell => {
                    pool.reserve_token = grown;
                    pool.reserve_wsol = shrunk;
                },
            }
            Ok((SwapState::Committed, Action::Finish))
        },
        SwapState::Committed => Ok((SwapState::Committed, Action::Finish)),
    }
}

/// A call of [`buy`]: the accounts that the caller handed in, the pool, and
/// the rate that the exchange runs at.
#[derive(Clone, Copy, Debug, PartialEq, Eq)]
pub struct Buy {
    pub accounts: SwapAccounts,
    pub pool: Pool,
    pub price: Price,
}

/// A call of [`sell`]: the accounts that the caller handed in, the pool, and
/// the rate that the exchange runs at.
#[derive(Clone, Copy, Debug, PartialEq, Eq)]
pub struct Sell {
    pub accounts: SwapAccounts,
    pub pool: Pool,
    pub price: Price,
}

/// Takes the step that follows `state` in a purchase: the caller pays
/// `amount_in_wsol` of wrapped SOL and receives tokens at the call's rate.
///
/// Only the last step changes anything, and only the pool's two reserves. A
/// step that fails changes nothing.
pub fn buy(ctx: &mut Buy, state: SwapState, amount_in_wsol: u64) -> (res: Result<
    (SwapState, Action),
    DexError,
>)
    ensures
        final(ctx).accounts == old(ctx).accounts,
        final(ctx).price == old(ctx).price,
        match res {
            Ok((state_after, action)) => swap_next(
                Side::Buy,
                old(ctx).pool,
                old(ctx).accounts,
                old(ctx).price,
                state,
                amount_in_wsol,
            ) == Ok::<(Pool, SwapState, Action), DexError>(
                (final(ctx).pool, state_after, action),
            ),
            Err(e) => swap_next(
                Side::Buy,
                old(ctx).pool,
                old(ctx).accounts,
                old(ctx).price,
                state,
                amount_in_wsol,
            ) == Err::<(Pool, SwapState, Action), DexError>(e) && final(ctx).pool == old(ctx).pool,
        },
{
    let accounts = ctx.accounts;
    let price = ctx.price;
    swap_step(Side::Buy, &mut ctx.pool, &accounts, &price, state, amount_in_wsol)
}

/// Takes the step that follows `state` in a sale: the caller pays
/// `amount_in_token` tokens and receives wrapped SOL at the call's rate.
///
/// Only the last step changes anything, and only the pool's two reserves. A
/// step that fails changes nothing.
pub fn sell(ctx: &mut Sell, state: SwapState, amount_in_token: u64) -> (res: Result<
    (SwapState, Action),
    DexError,
>)
    ensures
        final(ctx).accounts == old(ctx).accounts,
        final(ctx).price == old(ctx).price,
        match res {
            Ok((state_after, action)) => swap_next(
                Side::Sell,
                old(ctx).pool,
                old(ctx).accounts,
                old(ctx).price,
                state,
                amount_in_token,
            ) == Ok::<(Pool, SwapState, Action), DexError>(
                (final(ctx).pool, state_after, action),
            ),
            Err(e) => swap_next(
                Side::Sell,
                old(ctx).pool,
                old(ctx).accounts,
                old(ctx).price,
                state,
                amount_in_token,
            ) == Err::<(Pool, SwapState, Action), DexError>(e) && final(ctx).pool == old(ctx).pool,
        },
{
    let accounts = ctx.accounts;
    let price = ctx.price;
    swap_step(Side::Sell, &mut ctx.pool, &accounts, &price, state, amount_in_token)
}

/// What a whole swap comes to when the host carries out both transfers: the
/// payout, or the first failure on the way.
///
/// The payout is the payment taken at the rate. A swap is refused when the
/// payout cannot be computed, when it is zero, when the reserve that pays
/// does not cover it, and when the reserve that is paid into cannot take
/// the payment.
pub open spec fn swap_outcome(side: Side, pool: Pool, price: Price, amount_in: u64) -> Result<
    u64,
    DexError,
> {
    match price.quote(side, amount_in) {
        Err(e) => Err(e),
        Ok(amount_out) => if amount_out == 0 {
            Err(DexError::ZeroOutput)
        } else if pool.reserve_out(side) < amount_out {
            Err(DexError::InsufficientLiquidity)
        } else if pool.reserve_in(side) + amount_in > u64::MAX {
            Err(DexError::MathOverflow)
        } else {
            Ok(amount_out)
        },
    }
}

/// Where a swap stands after the host has taken up to `steps` steps from
/// `state` and carried out every transfer that they asked for: the pool, the
/// state and the transfers in the order in which they were asked for; or the
/// failure that ended the call.
pub open spec fn swap_run(
    side: Side,
    pool: Pool,
    accounts: SwapAccounts,
    price: Price,
    state: SwapState,
    amount_in: u64,
    steps: nat,
) -> Result<(Pool, SwapState, Seq<TransferRequest>), DexError>
    decreases steps,
{
    if steps == 0 {
        Ok((pool, state, Seq::<TransferRequest>::empty()))
    } else {
        match swap_next(side, pool, accounts, price, state, amount_in) {
            Err(e) => Err(e),
            Ok((pool_after, state_after, action)) => match swap_run(
                side,
                pool_after,
                accounts,
                price,
                state_after,
                amount_in,
                (steps - 1) as nat,
            ) {
                Err(e) => Err(e),
                Ok((pool_last, state_last, transfers)) => Ok(
                    (
                        pool_last,
                        state_last,
                        match action {
                            Action::Transfer(request) => seq![request] + transfers,
                            _ => transfers,
                        },
                    ),
                ),
            },
        }
    }
}

/// Stepping a swap through from `Idle` comes to what [`swap_outcome`] says.
/// When the swap goes through, five steps end in `Committed`, the host was
/// asked for exactly two transfers, first the payment and then the payout,
/// and the pool has the payment more in one reserve and the payout less in
/// the other. When it does not, the steps end in the same failure.
pub proof fn lemma_steps_reach_outcome(
    side: Side,
    pool: Pool,
    accounts: SwapAccounts,
    price: Price,
    amount_in: u64,
)
    ensures
        swap_run(side, pool, accounts, price, SwapState::Idle, amount_in, 5) == (match swap_outcome(
            side,
            pool,
            price,
            amount_in,
        ) {
            Ok(amount_out) => Ok(
                (
                    pool.settled(side, amount_in, amount_out),
                    SwapState::Committed,
                    seq![
                        accounts.transfer_in(side, amount_in, pool.decimals),
                        accounts.transfer_out(side, amount_out, pool.decimals, pool.vault_bump),
                    ],
                ),
            ),
            Err(e) => Err(e),
        }),
{
    reveal_with_fuel(swap_run, 6);
    match swap_outcome(side, pool, price, amount_in) {
        Ok(amount_out) => {
            let t_in = accounts.transfer_in(side, amount_in, pool.decimals);
            let t_out = accounts.transfer_out(side, amount_out, pool.decimals, pool.vault_bump);
            let none = Seq::<TransferRequest>::empty();
            assert(seq![t_out] + none =~= seq![t_out]);
            assert(seq![t_in] + seq![t_out] =~= seq![t_in, t_out]);
        },
        Err(_) => {},
    }
}

/// A swap that goes through pays in more than nothing and pays out more than
/// nothing. It raises the reserve that is paid into by exactly the payment,
/// lowers the reserve that pays by exactly the payout, which is the payment
/// taken at the rate, and leaves the rest of the pool as it was.
pub proof fn lemma_swap_conserves(side: Side, pool: Pool, price: Price, amount_in: u64)
    requires
        swap_outcome(side, pool, price, amount_in) is Ok,
    ensures
        ({
            let amount_out = swap_outcome(side, pool, price, amount_in)->Ok_0;
            let after = pool.settled(side, amount_in, amount_out);
            &&& Ok::<u64, DexError>(amount_out) == price.quote(side, amount_in)
            &&& amount_in > 0
            &&& amount_out > 0
            &&& after.reserve_in(side) == pool.reserve_in(side) + amount_in
            &&& after.reserve_out(side) == pool.reserve_out(side) - amount_out
            &&& after.reserve_in(side) > pool.reserve_in(side)
            &&& after.reserve_out(side) < pool.reserve_out(side)
            &&& after == (Pool {
                reserve_token: after.reserve_token,
                reserve_wsol: after.reserve_wsol,
                ..pool
            })
        }),
{
    match side {
        Side::Buy => crate::math::lemma_scale_positive(amount_in, price.den, price.num),
        Side::Sell => crate::math::lemma_scale_positive(amount_in, price.num, price.den),
    }
}

/// Paying nothing in, or so little that the payout rounds down to zero, is
/// refused as `ZeroOutput`.
pub proof fn lemma_dust_is_refused(side: Side, pool: Pool, price: Price, amount_in: u64)
    ensures
        price.quote(side, amount_in) == Ok::<u64, DexError>(0u64) ==> swap_outcome(
            side,
            pool,
            price,
            amount_in,
        ) == Err::<u64, DexError>(DexError::ZeroOutput),
        price.quote(side, 0) is Ok ==> swap_outcome(side, pool, price, 0) == Err::<u64, DexError>(
            DexError::ZeroOutput,
        ),
{
    match side {
        Side::Buy => {
            if price.num != 0 {
                crate::math::lemma_scale_of_zero(price.den, price.num);
            }
        },
        Side::Sell => {
            if price.den != 0 {
                crate::math::lemma_scale_of_zero(price.num, price.den);
            }
        },
    }
}

/// A payout that is more than the reserve holds is refused as
/// `InsufficientLiquidity`.
pub proof fn lemma_reserve_must_cover(side: Side, pool: Pool, price: Price, amount_in: u64)
    requires
        price.quote(side, amount_in) is Ok,
        price.quote(side, amount_in)->Ok_0 > pool.reserve_out(side),
    ensures
        swap_outcome(side, pool, price, amount_in) == Err::<u64, DexError>(
            DexError::InsufficientLiquidity,
        ),
{
}

/// Buying and at once selling what was bought brings the token reserve back
/// to where it was, and the wrapped-SOL reserve to where it was or above: the
/// pool keeps what the two roundings lost, which, taken `den` times, is less
/// than `num + den - 1`.
pub proof fn lemma_buy_then_sell(pool: Pool, price: Price, amount_in_wsol: u64)
    requires
        swap_outcome(Side::Buy, pool, price, amount_in_wsol) is Ok,
        ({
            let tokens = swap_outcome(Side::Buy, pool, price, amount_in_wsol)->Ok_0;
            let bought = pool.settled(Side::Buy, amount_in_wsol, tokens);
            swap_outcome(Side::Sell, bought, price, tokens) is Ok
        }),
    ensures
        ({
            let tokens = swap_outcome(Side::Buy, pool, price, amount_in_wsol)->Ok_0;
            let bought = pool.settled(Side::Buy, amount_in_wsol, tokens);
            let wsol = swap_outcome(Side::Sell, bought, price, tokens)->Ok_0;
            let sold = bought.settled(Side::Sell, tokens, wsol);
            &&& sold.reserve_token == pool.reserve_token
            &&& sold.reserve_wsol == pool.reserve_wsol + amount_in_wsol - wsol
            &&& sold.reserve_wsol >= pool.reserve_wsol
            &&& (sold.reserve_wsol - pool.reserve_wsol) * price.den <= price.num + price.den - 2
            &&& sold == (Pool { reserve_wsol: sold.reserve_wsol, ..pool })
        }),
{
    crate::math::lemma_scale_round_trip(amount_in_wsol, price.den, price.num);
}

/// At the rate that the exchange runs at, a purchase that went through can
/// always be sold back at once, and that restores the pool exactly.
pub proof fn lemma_buy_then_sell_at_fixed_price(pool: Pool, amount_in_wsol: u64)
    requires
        swap_outcome(
            Side::Buy,
            pool,
            Price { num: PRICE_NUM_WS_PER_TOKEN, den: PRICE_DEN_WS_PER_TOKEN },
            amount_in_wsol,
        ) is Ok,
    ensures
        ({
            let price = Price { num: PRICE_NUM_WS_PER_TOKEN, den: PRICE_DEN_WS_PER_TOKEN };
            let tokens = swap_outcome(Side::Buy, pool, price, amount_in_wsol)->Ok_0;
            let bought = pool.settled(Side::Buy, amount_in_wsol, tokens);
            &&& swap_outcome(Side::Sell, bought, price, tokens) == Ok::<u64, DexError>(
                amount_in_wsol,
            )
            &&& bought.settled(Side::Sell, tokens, amount_in_wsol) == pool
        }),
{
}

} // verus!
