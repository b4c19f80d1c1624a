//! The two token programs that move the pool's assets.

use vstd::prelude::*;
use crate::address::{lemma_address_by_bytes, Address};

verus! {

/// One of the two token programs. Each asset of the pool lives under one of
/// them, and a transfer of that asset goes through it.
#[derive(Clone, Copy, Debug, PartialEq, Eq, Structural)]
pub enum TransferChannel {
    /// The classic SPL token program, under which wrapped SOL lives.
    Classic,
    /// The Token-2022 program, under which the pool's own token lives.
    Token2022,
}

/// The bytes of the classic token program's address
/// (`TokenkegQfeZyiNwAJbNbGKPFXCWuBvf9Ss623VQ5DA` in base 58).
pub open spec fn classic_program_bytes() -> Seq<u8> {
    seq![
        6u8, 221u8, 246u8, 225u8, 215u8, 101u8, 161u8, 147u8,
        217u8, 203u8, 225u8, 70u8, 206u8, 235u8, 121u8, 172u8,
        28u8, 180u8, 133u8, 237u8, 95u8, 91u8, 55u8, 145u8,
        58u8, 140u8, 245u8, 133u8, 126u8, 255u8, 0u8, 169u8,
    ]
}

/// The bytes of the Token-2022 program's address
/// (`TokenzQdBNbLqP5VEhdkAS6EPFLC1PHnBqCXEpPxuEb` in base 58).
pub open spec fn token_2022_program_bytes() -> Seq<u8> {
    seq![
        6u8, 221u8, 246u8, 225u8, 238u8, 117u8, 143u8, 222u8,
        24u8, 66u8, 93u8, 188u8, 228u8, 108u8, 205u8, 218u8,
        182u8, 26u8, 252u8, 77u8, 131u8, 185u8, 13u8, 39u8,
        254u8, 189u8, 249u8, 40u8, 216u8, 161u8, 139u8, 252u8,
    ]
}

/// Reads `anchor_spl::token::ID`, the constant that the classic token program
/// declares as its own address. Trusted: that the constant holds the 32 bytes
/// which its base-58 declaration decodes to.
#[verifier::external_body]
fn classic_program_id() -> (id: Address)
    ensures
        id@ == classic_program_bytes(),
{
    Address { bytes: anchor_spl::token::ID.to_bytes() }
}

/// Reads `anchor_spl::token_2022::ID`, the constant that the Token-2022
/// program declares as its own address. Trusted: that the constant holds the
/// 32 bytes which its base-58 declaration decodes to.
#[verifier::external_body]
fn token_2022_program_id() -> (id: Address)
    ensures
        id@ == token_2022_program_bytes(),
{
    Address { bytes: anchor_spl::token_2022::ID.to_bytes() }
}

impl TransferChannel {
    /// The bytes of the address of the program behind this channel.
    pub open spec fn program_bytes(self) -> Seq<u8> {
        match self {
            TransferChannel::Classic => classic_program_bytes(),
            TransferChannel::Token2022 => token_2022_program_bytes(),
        }
    }

    /// The channel whose program has the given address, if there is one.
    pub open spec fn owning(owner: Address) -> Option<TransferChannel> {
        if owner@ == classic_program_bytes() {
            Some(TransferChannel::Classic)
        } else if owner@ == token_2022_program_bytes() {
            Some(TransferChannel::Token2022)
        } else {
            None
        }
    }

    /// The address of the program behind this channel.
    pub fn program_id(self) -> (id: Address)
        ensures
            id@ == self.program_bytes(),
    {
        match self {
            TransferChannel::Classic => classic_program_id(),
            TransferChannel::Token2022 => token_2022_program_id(),
        }
    }

    /// Tells under which of the two programs an account with the given owner
    /// lives; `None` when it is owned by neither.
    pub fn of_owner(owner: &Address) -> (channel: Option<TransferChannel>)
        ensures
            channel == TransferChannel::owning(*owner),
    {
        let classic = TransferChannel::Classic.program_id();
        let token_2022 = TransferChannel::Token2022.program_id();
        proof {
            lemma_address_by_bytes(*owner, classic);
            lemma_address_by_bytes(*owner, token_2022);
        }
        if *owner == classic {
            Some(TransferChannel::Classic)
        } else if *owner == token_2022 {
            Some(TransferChannel::Token2022)
        } else {
            None
        }
    }
}

/// The two programs have different addresses, so no account is owned by both.
pub proof fn lemma_programs_differ()
    ensures
        classic_program_bytes() != token_2022_program_bytes(),
{
    assert(classic_program_bytes()[4] == 215u8);
    assert(token_2022_program_bytes()[4] == 238u8);
}

} // verus!
