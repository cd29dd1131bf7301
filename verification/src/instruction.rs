use vstd::prelude::*;
use anchor_lang::prelude::Pubkey;
use anchor_lang::solana_program::system_instruction;
use crate::address::Address;
use crate::encoding::{from_le_u64, le_u64, lemma_le_u64_round_trip};

verus! {

/// One account that an instruction names, with what the instruction may do to it.
#[derive(Clone, Copy, Debug, PartialEq, Eq)]
pub struct AccountMeta {
    pub pubkey: Address,
    /// Whether the instruction needs this account's signature.
    pub is_signer: bool,
    /// Whether the instruction may change the account.
    pub is_writable: bool,
}

impl AccountMeta {
    /// An account that the instruction may change.
    pub fn new(pubkey: Address, is_signer: bool) -> (r: AccountMeta)
        ensures
            r == (AccountMeta { pubkey, is_signer, is_writable: true }),
    {
        AccountMeta { pubkey, is_signer, is_writable: true }
    }

    /// An account that the instruction only reads.
    pub fn new_readonly(pubkey: Address, is_signer: bool) -> (r: AccountMeta)
        ensures
            r == (AccountMeta { pubkey, is_signer, is_writable: false }),
    {
        AccountMeta { pubkey, is_signer, is_writable: false }
    }
}

/// A call to a program on the ledger: which program, on which accounts, with which bytes.
#[derive(Clone, Debug, PartialEq, Eq)]
pub struct Instruction {
    pub program_id: Address,
    pub accounts: Vec<AccountMeta>,
    pub data: Vec<u8>,
}

/// What an instruction says, as mathematical values.
pub struct InstructionView {
    pub program_id: Address,
    pub accounts: Seq<AccountMeta>,
    pub data: Seq<u8>,
}

impl View for Instruction {
    type V = InstructionView;

    open spec fn view(&self) -> InstructionView {
        InstructionView { program_id: self.program_id, accounts: self.accounts@, data: self.data@ }
    }
}

/// The address of the system program, which moves lamports between accounts.
pub open spec fn system_program_id() -> Address {
    Address::spec_unset()
}

/// The system program's instruction that moves `lamports` from `from`, which signs, to `to`.
/// Its data is the instruction's index, 2, in four bytes, then the amount in eight.
pub open spec fn transfer_instruction(from: Address, to: Address, lamports: u64) -> InstructionView {
    InstructionView {
        program_id: system_program_id(),
        accounts: seq![
            AccountMeta { pubkey: from, is_signer: true, is_writable: true },
            AccountMeta { pubkey: to, is_signer: false, is_writable: true },
        ],
        data: seq![2u8, 0u8, 0u8, 0u8] + le_u64(lamports),
    }
}

/// The account that a transfer instruction takes lamports from.
pub open spec fn transfer_source(ix: InstructionView) -> Address {
    ix.accounts[0].pubkey
}

/// The account that a transfer instruction gives lamports to.
pub open spec fn transfer_destination(ix: InstructionView) -> Address {
    ix.accounts[1].pubkey
}

/// The number of lamports that a transfer instruction moves: what its data holds after
/// the instruction's index.
pub open spec fn transfer_lamports(ix: InstructionView) -> int {
    from_le_u64(ix.data.subrange(4, 12))
}

/// What the account `who` has more, in lamports, once the transfer instruction `ix` is
/// carried out; negative where it has less.
pub open spec fn lamports_gained(ix: InstructionView, who: Address) -> int {
    (if who == transfer_destination(ix) {
        transfer_lamports(ix)
    } else {
        0
    }) - (if who == transfer_source(ix) {
        transfer_lamports(ix)
    } else {
        0
    })
}

/// A transfer instruction names the accounts and the amount that it was made for.
pub proof fn lemma_transfer_reads_back(from: Address, to: Address, lamports: u64)
    ensures
        transfer_source(transfer_instruction(from, to, lamports)) == from,
        transfer_destination(transfer_instruction(from, to, lamports)) == to,
        transfer_lamports(transfer_instruction(from, to, lamports)) == lamports,
{
    let ix = transfer_instruction(from, to, lamports);
    lemma_le_u64_round_trip(lamports);
    assert(ix.data.subrange(4, 12) =~= le_u64(lamports));
}

/// Calls `solana_program::system_instruction::transfer`. Trusted: that the instruction it
/// builds is addressed to the system program, whose address is all zero; that it names
/// `from` as writable signer and `to` as writable, in this order; and that its data is the
/// bincode encoding of the system program's `Transfer { lamports }`, which is the number
/// 2 in four bytes and the amount in eight, least significant byte first.
#[verifier::external_body]
pub(crate) fn system_transfer(from: &Address, to: &Address, lamports: u64) -> (r: Instruction)
    ensures
        r@ == transfer_instruction(*from, *to, lamports),
{
    let source = Pubkey::new_from_array(from.bytes);
    let destination = Pubkey::new_from_array(to.bytes);
    let ix = system_instruction::transfer(&source, &destination, lamports);
    let accounts = ix.accounts.iter().map(|m| AccountMeta {
        pubkey: Address { bytes: m.pubkey.to_bytes() },
        is_signer: m.is_signer,
        is_writable: m.is_writable,
    }).collect();
    Instruction { program_id: Address { bytes: ix.program_id.to_bytes() }, accounts, data: ix.data }
}

} // verus!
