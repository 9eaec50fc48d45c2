//! The one movement of funds that an applied operation asks for.

use vstd::prelude::*;
use crate::address::Address;
use crate::address::Namespace;
use crate::address::authority_seeds;
use crate::address::signer_seeds;

verus! {

/// Who authorizes a movement of funds.
#[derive(Clone, Copy, Debug, PartialEq, Eq)]
pub enum Authority {
    /// The sender is the caller and signs for itself.
    Sender,
    /// The sender is a vault: the engine signs with the vault's tag and bump.
    Vault { namespace: Namespace, bump: u8 },
}

/// A movement of `amount` currency units from `from` to `to`.
#[derive(Clone, Copy, Debug, PartialEq, Eq)]
pub struct Transfer {
    pub from: Address,
    pub to: Address,
    pub amount: u64,
    pub authority: Authority,
}

/// One account of an instruction and how the instruction uses it.
#[derive(Clone, Copy, Debug, PartialEq, Eq)]
pub struct AccountMeta {
    pub pubkey: Address,
    pub is_signer: bool,
    pub is_writable: bool,
}

/// An instruction for the program at `program_id`.
#[derive(Clone, Debug, PartialEq, Eq)]
pub struct Instruction {
    pub program_id: Address,
    pub accounts: Vec<AccountMeta>,
    pub data: Vec<u8>,
}

/// The data bytes of the system program's transfer instruction for an amount.
pub uninterp spec fn transfer_data(lamports: u64) -> Seq<u8>;

/// The address of the system program: 32 zero bytes.
pub open spec fn system_program() -> Seq<u8> {
    Seq::new(32, |i: int| 0u8)
}

/// Calls `system_instruction::transfer` of `solana_program`, through
/// `anchor_lang`. The contract claims that the instruction is for the system
/// program, names the sender as a writable signer and the recipient as
/// writable, in this order, and carries data that depends on the amount
/// alone, to which it gives the name `transfer_data`.
#[verifier::external_body]
fn system_transfer(from: &Address, to: &Address, lamports: u64) -> (r: Instruction)
    ensures
        r.program_id@ == system_program(),
        r.accounts@ == seq![
            AccountMeta { pubkey: *from, is_signer: true, is_writable: true },
            AccountMeta { pubkey: *to, is_signer: false, is_writable: true },
        ],
        r.data@ == transfer_data(lamports),
{
    let sender = anchor_lang::prelude::Pubkey::new_from_array(from.bytes);
    let recipient = anchor_lang::prelude::Pubkey::new_from_array(to.bytes);
    let ix = anchor_lang::solana_program::system_instruction::transfer(
        &sender,
        &recipient,
        lamports,
    );
    let accounts = ix.accounts.iter().map(|m| AccountMeta {
        pubkey: Address { bytes: m.pubkey.to_bytes() },
        is_signer: m.is_signer,
        is_writable: m.is_writable,
    }).collect();
    Instruction { program_id: Address { bytes: ix.program_id.to_bytes() }, accounts, data: ix.data }
}

impl Transfer {
    /// What the account at `address` holds once this movement has taken
    /// place, where it held `balance` before.
    pub open spec fn balance_after(self, address: Address, balance: int) -> int {
        let received: int = if self.to == address {
            self.amount as int
        } else {
            0
        };
        let sent: int = if self.from == address {
            self.amount as int
        } else {
            0
        };
        balance + received - sent
    }

    /// The seeds with which this movement is signed: none where the sender
    /// signs for itself, the vault's tag and bump where a vault sends.
    pub open spec fn seeds(self) -> Seq<Seq<u8>> {
        match self.authority {
            Authority::Sender => Seq::empty(),
            Authority::Vault { namespace, bump } => authority_seeds(namespace, bump),
        }
    }

    /// Builds the signing seeds of this movement.
    pub fn signer_seeds(&self) -> (r: Vec<Vec<u8>>)
        ensures
            r.deep_view() == self.seeds(),
    {
        match self.authority {
            Authority::Sender => {
                let r: Vec<Vec<u8>> = Vec::new();
                r
            },
            Authority::Vault { namespace, bump } => signer_seeds(namespace, bump),
        }
    }

    /// Builds the system program's instruction that performs this movement.
    pub fn instruction(&self) -> (r: Instruction)
        ensures
            r.program_id@ == system_program(),
            r.accounts@ == seq![
                AccountMeta { pubkey: self.from, is_signer: true, is_writable: true },
                AccountMeta { pubkey: self.to, is_signer: false, is_writable: true },
            ],
            r.data@ == transfer_data(self.amount),
    {
        system_transfer(&self.from, &self.to, self.amount)
    }
}

} // verus!
