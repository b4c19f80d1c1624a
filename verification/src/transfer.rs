//! The gateway to the token programs: what the exchange asks them to move,
//! and what a move does to the balances that they keep.

use vstd::prelude::*;
use crate::address::Address;
use crate::channel::TransferChannel;

verus! {

/// The label that every derivation of a vault authority starts with: the
/// bytes of the word `vault`.
pub open spec fn vault_seed_label() -> Seq<u8> {
    seq![118u8, 97u8, 117u8, 108u8, 116u8]
}

/// What it takes to sign for the pool's vaults: the pool's own address and
/// the bump that was found when the pool was set up. Nobody holds a key for
/// the vault authority; it is derived from these anew in every call.
#[derive(Clone, Copy, Debug, PartialEq, Eq)]
pub struct AuthoritySeeds {
    pub pool: Address,
    pub bump: u8,
}

impl AuthoritySeeds {
    /// The seeds in the order in which the derivation takes them: the label,
    /// the pool's address, the bump.
    pub open spec fn parts(self) -> Seq<Seq<u8>> {
        seq![vault_seed_label(), self.pool@, seq![self.bump]]
    }

    /// Writes the seeds out as byte strings.
    pub fn to_parts(&self) -> (parts: Vec<Vec<u8>>)
        ensures
            parts@.len() == self.parts().len(),
            forall|i: int| 0 <= i < parts@.len() ==> (#[trigger] parts@[i])@ == self.parts()[i],
    {
        let mut label: Vec<u8> = Vec::new();
        label.push(118u8);
        label.push(97u8);
        label.push(117u8);
        label.push(108u8);
        label.push(116u8);
        assert(label@ =~= vault_seed_label());
        let mut pool: Vec<u8> = Vec::new();
        let mut i: usize = 0;
        while i < 32
            invariant
                i <= 32,
                pool@.len() == i,
                forall|j: int| 0 <= j < i ==> pool@[j] == self.pool.bytes@[j],
            decreases 32 - i,
        {
            pool.push(self.pool.bytes[i]);
            i += 1;
        }
        assert(pool@ =~= self.pool.bytes@);
        let mut bump: Vec<u8> = Vec::new();
        bump.push(self.bump);
        assert(bump@ =~= seq![self.bump]);
        let mut parts: Vec<Vec<u8>> = Vec::new();
        parts.push(label);
        parts.push(pool);
        parts.push(bump);
        parts
    }
}

/// One transfer that the host is asked to carry out: `amount` of the asset
/// `mint`, from one token account to another, through one of the two token
/// programs, which is to hold the transfer against `decimals`.
#[derive(Clone, Copy, Debug, PartialEq, Eq)]
pub struct TransferRequest {
    /// The token program that moves the asset.
    pub channel: TransferChannel,
    /// The account that pays.
    pub from: Address,
    /// The account that receives.
    pub to: Address,
    /// The asset that is moved.
    pub mint: Address,
    /// Who authorizes the transfer.
    pub authority: Address,
    /// `None` when the authority signed the call itself; the seeds to sign
    /// with when the authority is the one derived from the pool.
    pub signer_seeds: Option<AuthoritySeeds>,
    /// How much is moved.
    pub amount: u64,
    /// The precision that the asset is expected to have.
    pub decimals: u8,
}

/// Puts a transfer together for the host to carry out.
pub fn xfer_checked(
    channel: TransferChannel,
    from: &Address,
    to: &Address,
    mint: &Address,
    authority: &Address,
    signer_seeds: Option<AuthoritySeeds>,
    amount: u64,
    decimals: u8,
) -> (request: TransferRequest)
    ensures
        request == (TransferRequest {
            channel,
            from: *from,
            to: *to,
            mint: *mint,
            authority: *authority,
            signer_seeds,
            amount,
            decimals,
        }),
{
    TransferRequest {
        channel,
        from: *from,
        to: *to,
        mint: *mint,
        authority: *authority,
        signer_seeds,
        amount,
        decimals,
    }
}

/// The balances that the token programs keep, account by account. The
/// exchange never reads them; they are what its reserves have to agree with.
pub struct Ledger {
    pub balances: Map<Address, nat>,
}

impl Ledger {
    /// What an account holds; nothing, if the ledger does not know it.
    pub open spec fn balance(self, account: Address) -> nat {
        if self.balances.dom().contains(account) {
            self.balances[account]
        } else {
            0
        }
    }

    /// Whether the paying account holds what the transfer moves.
    pub open spec fn covers(self, request: TransferRequest) -> bool {
        self.balance(request.from) >= request.amount
    }

    /// The ledger once the transfer has been carried out: the amount has left
    /// the paying account and reached the receiving one.
    pub open spec fn after(self, request: TransferRequest) -> Ledger {
        if request.from == request.to {
            self
        } else {
            Ledger {
                balances: self.balances.insert(
                    request.from,
                    (self.balance(request.from) - request.amount) as nat,
                ).insert(request.to, (self.balance(request.to) + request.amount) as nat),
            }
        }
    }

    /// The ledger once the transfers have been carried out one after the
    /// other; `None` when one of them asks for more than its paying account
    /// holds by then, which no token program carries out.
    pub open spec fn after_all(self, requests: Seq<TransferRequest>) -> Option<Ledger>
        decreases requests.len(),
    {
        if requests.len() == 0 {
            Some(self)
        } else if !self.covers(requests[0]) {
            None
        } else {
            self.after(requests[0]).after_all(requests.drop_first())
        }
    }
}

} // verus!
