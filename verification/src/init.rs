//! Setting a pool up: the two mints are held against the rules, both vaults
//! are seeded out of the administrator's holdings, and the pool's record is
//! written.
//!
//! Like a swap, this is taken step by step, because the two seeding transfers
//! are the host's work. The host starts in [`InitState::Start`] and steps
//! until it is told to [`Action::Finish`], with the same amounts each time.

use vstd::prelude::*;
use crate::address::Address;
use crate::channel::{
    classic_program_bytes, lemma_programs_differ, token_2022_program_bytes, TransferChannel,
};
use crate::error::DexError;
use crate::pool::Pool;
use crate::swap::Action;
use crate::transfer::{xfer_checked, TransferRequest};

verus! {

/// What the registry of assets tells of a mint.
#[derive(Clone, Copy, Debug, PartialEq, Eq)]
pub struct MintInfo {
    /// The address of the mint.
    pub key: Address,
    /// The token program that owns the mint.
    pub owner: Address,
    /// The decimal precision of the asset.
    pub decimals: u8,
}

/// How far the setting up of a pool has come.
#[derive(Clone, Copy, Debug, PartialEq, Eq, Structural)]
pub enum InitState {
    /// Nothing has happened yet.
    Start,
    /// Both mints have been found in order.
    Checked,
    /// The token vault holds its seed.
    TokenSeeded,
    /// The wrapped-SOL vault holds its seed too.
    WsolSeeded,
    /// The pool's record has been written.
    Recorded,
}

/// A call of [`initialize`]: the accounts that the administrator handed in
/// and the pool's record, which the last step fills in.
#[derive(Clone, Copy, Debug, PartialEq, Eq)]
pub struct Initialize {
    /// The administrator, who pays both seeds and signs for them.
    pub signer: Address,
    /// The pool's record.
    pub pool: Pool,
    /// The derived authority that owns both vaults.
    pub vault_authority: Address,
    /// The bump that was found when the authority was derived.
    pub vault_bump: u8,
    /// The new vault for tokens.
    pub vault_token: Address,
    /// The new vault for wrapped SOL.
    pub vault_wsol: Address,
    /// The administrator's token account.
    pub user_token: Address,
    /// The administrator's wrapped-SOL account.
    pub user_wsol: Address,
    /// The mint of the token.
    pub mint_token: MintInfo,
    /// The mint of wrapped SOL.
    pub mint_wsol: MintInfo,
}

impl Initialize {
    /// Whether the two mints can be paired in a pool. The token's mint has to
    /// live under Token-2022 and the mint of wrapped SOL under the classic
    /// token program, and both must have the same precision. Where several
    /// rules are broken, the first one in this order is named.
    pub open spec fn admitted(self) -> Result<(), DexError> {
        if TransferChannel::owning(self.mint_token.owner) != Some(TransferChannel::Token2022) {
            Err(DexError::WrongProgramToken)
        } else if TransferChannel::owning(self.mint_wsol.owner) != Some(TransferChannel::Classic) {
            Err(DexError::WrongProgramWsol)
        } else if self.mint_token.decimals != self.mint_wsol.decimals {
            Err(DexError::DecimalsMismatch)
        } else {
            Ok(())
        }
    }

    /// The transfer that seeds the token vault.
    pub open spec fn seed_token(self, amount_token: u64) -> TransferRequest {
        TransferRequest {
            channel: TransferChannel::Token2022,
            from: self.user_token,
            to: self.vault_token,
            mint: self.mint_token.key,
            authority: self.signer,
            signer_seeds: None,
            amount: amount_token,
            decimals: self.mint_token.decimals,
        }
    }

    /// The transfer that seeds the wrapped-SOL vault.
    pub open spec fn seed_wsol(self, amount_wsol: u64) -> TransferRequest {
        TransferRequest {
            channel: TransferChannel::Classic,
            from: self.user_wsol,
            to: self.vault_wsol,
            mint: self.mint_wsol.key,
            authority: self.signer,
            signer_seeds: None,
            amount: amount_wsol,
            decimals: self.mint_wsol.decimals,
        }
    }

    /// The record of the new pool: the administrator, the mints, the vaults
    /// and the bump as they were handed in, the token's precision, and the
    /// two seeds as the first reserves.
    pub open spec fn recorded(self, amount_token: u64, amount_wsol: u64) -> Pool {
        Pool {
            admin: self.signer,
            mint_token: self.mint_token.key,
            mint_wsol: self.mint_wsol.key,
            vault_token: self.vault_token,
            vault_wsol: self.vault_wsol,
            vault_bump: self.vault_bump,
            decimals: self.mint_token.decimals,
            reserve_token: amount_token,
            reserve_wsol: amount_wsol,
        }
    }
}

/// The step that follows `state`: the pool's record as the step leaves it,
/// the state that the setting up is in once the host has done what the action
/// asks, and that action; or the reason why the call ends here.
///
/// - From `Start` the mints are held against the rules.
/// - From `Checked` the seed of tokens is asked for.
/// - From `TokenSeeded` the seed of wrapped SOL is asked for.
/// - From `WsolSeeded` the record is written.
/// - `Recorded` is final.
pub open spec fn init_next(
    ctx: Initialize,
    state: InitState,
    amount_token: u64,
    amount_wsol: u64,
) -> Result<(Pool, InitState, Action), DexError> {
    match state {
        InitState::Start => match ctx.admitted() {
            Ok(_) => Ok((ctx.pool, InitState::Checked, Action::Proceed)),
            Err(e) => Err(e),
        },
        InitState::Checked => Ok(
            (ctx.pool, InitState::TokenSeeded, Action::Transfer(ctx.seed_token(amount_token))),
        ),
        InitState::TokenSeeded => Ok(
            (ctx.pool, InitState::WsolSeeded, Action::Transfer(ctx.seed_wsol(amount_wsol))),
        ),
        InitState::WsolSeeded => Ok(
            (ctx.recorded(amount_token, amount_wsol), InitState::Recorded, Action::Finish),
        ),
        InitState::Recorded => Ok((ctx.pool, InitState::Recorded, Action::Finish)),
    }
}

/// Takes the step that follows `state` in setting a pool up with
/// `amount_token` tokens and `amount_wsol` of wrapped SOL.
///
/// Only the last step changes anything, and only the pool's record. A step
/// that fails changes nothing.
pub fn initialize(
    ctx: &mut Initialize,
    state: InitState,
    amount_token: u64,
    amount_wsol: u64,
) -> (res: Result<(InitState, Action), DexError>)
    ensures
        *final(ctx) == (Initialize { pool: final(ctx).pool, ..*old(ctx) }),
        match res {
            Ok((state_after, action)) => init_next(*old(ctx), state, amount_token, amount_wsol)
                == Ok::<(Pool, InitState, Action), DexError>(
                (final(ctx).pool, state_after, action),
            ),
            Err(e) => init_next(*old(ctx), state, amount_token, amount_wsol) == Err::<
                (Pool, InitState, Action),
                DexError,
            >(e) && final(ctx).pool == old(ctx).pool,
        },
{
    match state {
        InitState::Start => {
            let token_channel = TransferChannel::of_owner(&ctx.mint_token.owner);
            let wsol_channel = TransferChannel::of_owner(&ctx.mint_wsol.owner);
            if !matches!(token_channel, Some(TransferChannel::Token2022)) {
                Err(DexError::WrongProgramToken)
            } else if !matches!(wsol_channel, Some(TransferChannel::Classic)) {
                Err(DexError::WrongProgramWsol)
            } else if ctx.mint_token.decimals != ctx.mint_wsol.decimals {
                Err(DexError::DecimalsMismatch)
            } else {
                Ok((InitState::Checked, Action::Proceed))
            }
        },
        InitState::Checked => {
            let request = xfer_checked(
                TransferChannel::Token2022,
                &ctx.user_token,
                &ctx.vault_token,
                &ctx.mint_token.key,
                &ctx.signer,
                None,
                amount_token,
                ctx.mint_token.decimals,
            );
            Ok((InitState::TokenSeeded, Action::Transfer(request)))
        },
        InitState::TokenSeeded => {
            let request = xfer_checked(
                TransferChannel::Classic,
                &ctx.user_wsol,
                &ctx.vault_wsol,
                &ctx.mint_wsol.key,
                &ctx.signer,
                None,
                amount_wsol,
                ctx.mint_wsol.decimals,
            );
            Ok((InitState::WsolSeeded, Action::Transfer(request)))
        },
        InitState::WsolSeeded => {
            ctx.pool.admin = ctx.signer;
            ctx.pool.mint_token = ctx.mint_token.key;
            ctx.pool.mint_wsol = ctx.mint_wsol.key;
            ctx.pool.vault_token = ctx.vault_token;
            ctx.pool.vault_wsol = ctx.vault_wsol;
            ctx.pool.vault_bump = ctx.vault_bump;
            ctx.pool.decimals = ctx.mint_token.decimals;
            ctx.pool.reserve_token = amount_token;
            ctx.pool.reserve_wsol = amount_wsol;
            Ok((InitState::Recorded, Action::Finish))
        },
        InitState::Recorded => Ok((InitState::Recorded, Action::Finish)),
    }
}

/// What setting a pool up comes to when the host carries out both seeding
/// transfers: the pool's record, or the rule that the mints break.
pub open spec fn init_outcome(ctx: Initialize, amount_token: u64, amount_wsol: u64) -> Result<
    Pool,
    DexError,
> {
    match ctx.admitted() {
        Ok(_) => Ok(ctx.recorded(amount_token, amount_wsol)),
        Err(e) => Err(e),
    }
}

/// Where the setting up stands after the host has taken up to `steps` steps
/// from `state` and carried out every transfer that they asked for: the
/// pool's record, the state and the transfers in the order in which they
/// were asked for; or the failure that ended the call.
pub open spec fn init_run(
    ctx: Initialize,
    state: InitState,
    amount_token: u64,
    amount_wsol: u64,
    steps: nat,
) -> Result<(Pool, InitState, Seq<TransferRequest>), DexError>
    decreases steps,
{
    if steps == 0 {
        Ok((ctx.pool, state, Seq::<TransferRequest>::empty()))
    } else {
        match init_next(ctx, state, amount_token, amount_wsol) {
            Err(e) => Err(e),
            Ok((pool_after, state_after, action)) => match init_run(
                Initialize { pool: pool_after, ..ctx },
                state_after,
                amount_token,
                amount_wsol,
                (steps - 1) as nat,
            ) {
                Err(e) => Err(e),
                Ok((pool_last, state_last, transfers)) => Ok(
                    (
                        pool_last,
                        state_last,
                        match action {
                            Action::Transfer(request) => seq![request] + transfers,
                            _ => transfers,
                        },
                    ),
                ),
            },
        }
    }
}

/// Stepping the setting up through from `Start` comes to what
/// [`init_outcome`] says. When the mints are in order, four steps end in
/// `Recorded`, the host was asked for exactly two transfers, first the seed
/// of tokens and then the seed of wrapped SOL, and the record is written.
/// When they are not, the first step fails and names the rule.
pub proof fn lemma_init_steps_reach_outcome(ctx: Initialize, amount_token: u64, amount_wsol: u64)
    ensures
        init_run(ctx, InitState::Start, amount_token, amount_wsol, 4) == (match init_outcome(
            ctx,
            amount_token,
            amount_wsol,
        ) {
            Ok(pool) => Ok(
                (
                    pool,
                    InitState::Recorded,
                    seq![ctx.seed_token(amount_token), ctx.seed_wsol(amount_wsol)],
                ),
            ),
            Err(e) => Err(e),
        }),
{
    reveal_with_fuel(init_run, 5);
    let t_token = ctx.seed_token(amount_token);
    let t_wsol = ctx.seed_wsol(amount_wsol);
    let none = Seq::<TransferRequest>::empty();
    assert(seq![t_wsol] + none =~= seq![t_wsol]);
    assert(seq![t_token] + seq![t_wsol] =~= seq![t_token, t_wsol]);
}

/// Mints that were handed in the wrong way round are refused: a token mint
/// under the classic program as `WrongProgramToken`, and, behind a token mint
/// that is in order, a wrapped-SOL mint under Token-2022 as
/// `WrongProgramWsol`. Mints under the right programs whose precisions
/// differ are refused as `DecimalsMismatch`.
pub proof fn lemma_wrong_mints_are_refused(ctx: Initialize, amount_token: u64, amount_wsol: u64)
    ensures
        ctx.mint_token.owner@ == classic_program_bytes() ==> init_outcome(
            ctx,
            amount_token,
            amount_wsol,
        ) == Err::<Pool, DexError>(DexError::WrongProgramToken),
        ctx.mint_token.owner@ == token_2022_program_bytes() && ctx.mint_wsol.owner@
            == token_2022_program_bytes() ==> init_outcome(ctx, amount_token, amount_wsol) == Err::<
            Pool,
            DexError,
        >(DexError::WrongProgramWsol),
        ctx.mint_token.owner@ == token_2022_program_bytes() && ctx.mint_wsol.owner@
            == classic_program_bytes() && ctx.mint_token.decimals != ctx.mint_wsol.decimals
            ==> init_outcome(ctx, amount_token, amount_wsol) == Err::<Pool, DexError>(
            DexError::DecimalsMismatch,
        ),
{
    lemma_programs_differ();
}

} // verus!
