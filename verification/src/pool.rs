//! The pool's record: who set it up, which assets and vaults it has, and how
//! much of each asset it holds.

use vstd::prelude::*;
use crate::address::Address;
use crate::price::Side;

verus! {

/// The one record that the exchange keeps between calls.
///
/// The identities are written once, when the pool is set up. The two reserves
/// are the pool's own count of what its vaults hold; only a swap that went
/// through changes them.
#[derive(Clone, Copy, Debug, PartialEq, Eq)]
pub struct Pool {
    /// Who set the pool up. Kept for the record; no operation asks for it.
    pub admin: Address,
    /// The mint of the pool's token, which lives under Token-2022.
    pub mint_token: Address,
    /// The mint of wrapped SOL, which lives under the classic token program.
    pub mint_wsol: Address,
    /// The vault that holds the pool's tokens.
    pub vault_token: Address,
    /// The vault that holds the pool's wrapped SOL.
    pub vault_wsol: Address,
    /// The bump with which the vaults' authority is derived from the pool.
    pub vault_bump: u8,
    /// The decimal precision that both mints share.
    pub decimals: u8,
    /// How many tokens the pool counts in its token vault.
    pub reserve_token: u64,
    /// How much wrapped SOL the pool counts in its wrapped-SOL vault.
    pub reserve_wsol: u64,
}

impl Pool {
    /// The size of the record in bytes when its fields are laid out one after
    /// the other: five addresses, two single bytes and two 64-bit counts.
    pub const LEN: usize = 32 + 32 + 32 + 32 + 32 + 1 + 1 + 8 + 8;

    /// The reserve that a swap on the given side pays into.
    pub open spec fn reserve_in(self, side: Side) -> u64 {
        match side {
            Side::Buy => self.reserve_wsol,
            Side::Sell => self.reserve_token,
        }
    }

    /// The reserve that a swap on the given side pays out of.
    pub open spec fn reserve_out(self, side: Side) -> u64 {
        match side {
            Side::Buy => self.reserve_token,
            Side::Sell => self.reserve_wsol,
        }
    }

    /// The vault that a swap on the given side pays into.
    pub open spec fn vault_in(self, side: Side) -> Address {
        match side {
            Side::Buy => self.vault_wsol,
            Side::Sell => self.vault_token,
        }
    }

    /// The vault that a swap on the given side pays out of.
    pub open spec fn vault_out(self, side: Side) -> Address {
        match side {
            Side::Buy => self.vault_token,
            Side::Sell => self.vault_wsol,
        }
    }

    /// This pool with `amount_in` more in the reserve that the side pays into
    /// and `amount_out` less in the one that it pays out of. Meaningful when
    /// neither leaves the range of a 64-bit count.
    pub open spec fn settled(self, side: Side, amount_in: u64, amount_out: u64) -> Pool {
        match side {
            Side::Buy => Pool {
                reserve_wsol: (self.reserve_wsol + amount_in) as u64,
                reserve_token: (self.reserve_token - amount_out) as u64,
                ..self
            },
            Side::Sell => Pool {
                reserve_token: (self.reserve_token + amount_in) as u64,
                reserve_wsol: (self.reserve_wsol - amount_out) as u64,
                ..self
            },
        }
    }
}

} // verus!
