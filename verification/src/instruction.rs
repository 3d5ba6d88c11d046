//! Instructions for the ledger's programs, and the form in which the library
//! hands them to its caller for dispatch.

use vstd::prelude::*;
use crate::derivation::associated_token_address_under;
use crate::keys::Pubkey;
use crate::programs::associated_token_program_id;

verus! {

/// How an instruction refers to one account.
#[derive(Clone, Copy, Debug, PartialEq, Eq)]
pub struct AccountMeta {
    pub pubkey: Pubkey,
    pub is_signer: bool,
    pub is_writable: bool,
}

/// A reference to an account as a mathematical value.
pub struct AccountMetaView {
    pub pubkey: Seq<u8>,
    pub is_signer: bool,
    pub is_writable: bool,
}

impl View for AccountMeta {
    type V = AccountMetaView;

    open spec fn view(&self) -> AccountMetaView {
        AccountMetaView { pubkey: self.pubkey@, is_signer: self.is_signer, is_writable: self.is_writable }
    }
}

/// An instruction for a program of the ledger.
#[derive(Clone, Debug, PartialEq, Eq)]
pub struct Instruction {
    /// The program that executes the instruction.
    pub program_id: Pubkey,
    /// The accounts the instruction refers to.
    pub accounts: Vec<AccountMeta>,
    /// The encoded operation.
    pub data: Vec<u8>,
}

/// An instruction as a mathematical value.
pub struct InstructionView {
    pub program_id: Seq<u8>,
    pub accounts: Seq<AccountMetaView>,
    pub data: Seq<u8>,
}

impl View for Instruction {
    type V = InstructionView;

    open spec fn view(&self) -> InstructionView {
        InstructionView {
            program_id: self.program_id@,
            accounts: Seq::new(self.accounts@.len(), |i: int| self.accounts@[i]@),
            data: self.data@,
        }
    }
}

/// One instruction to dispatch, with the accounts to hand to the runtime and
/// whether the caller's derivation seeds sign for it.
#[derive(Clone, Debug, PartialEq, Eq)]
pub struct Invocation {
    pub instruction: Instruction,
    /// The addresses of the account handles passed along, in order.
    pub accounts: Vec<Pubkey>,
    /// Whether the dispatch is signed with the caller's derivation seeds.
    pub signed: bool,
}

/// An invocation as a mathematical value.
pub struct InvocationView {
    pub instruction: InstructionView,
    pub accounts: Seq<Pubkey>,
    pub signed: bool,
}

impl View for Invocation {
    type V = InvocationView;

    open spec fn view(&self) -> InvocationView {
        InvocationView {
            instruction: self.instruction@,
            accounts: self.accounts@,
            signed: self.signed,
        }
    }
}

/// The invocations of a sequence as mathematical values.
pub open spec fn invocation_views(invocations: Seq<Invocation>) -> Seq<InvocationView> {
    Seq::new(invocations.len(), |i: int| invocations[i]@)
}

/// The bytes of the system program's address: all zero.
pub open spec fn system_program_id() -> Seq<u8> {
    Seq::new(32, |i: int| 0u8)
}

/// A reference to an account that the instruction writes to and that signs.
pub open spec fn writable_signer(account: Seq<u8>) -> AccountMetaView {
    AccountMetaView { pubkey: account, is_signer: true, is_writable: true }
}

/// A reference to an account that the instruction writes to.
pub open spec fn writable(account: Seq<u8>) -> AccountMetaView {
    AccountMetaView { pubkey: account, is_signer: false, is_writable: true }
}

/// A reference to an account that the instruction only reads.
pub open spec fn readonly(account: Seq<u8>) -> AccountMetaView {
    AccountMetaView { pubkey: account, is_signer: false, is_writable: false }
}

/// The encoded operation of a transfer.
pub uninterp spec fn transfer_data(from: Seq<u8>, to: Seq<u8>, lamports: u64) -> Seq<u8>;

/// The system program's instruction that moves `lamports` from one account,
/// which signs, to another.
pub open spec fn transfer_instruction(from: Seq<u8>, to: Seq<u8>, lamports: u64) -> InstructionView {
    InstructionView {
        program_id: system_program_id(),
        accounts: seq![writable_signer(from), writable(to)],
        data: transfer_data(from, to, lamports),
    }
}

/// Builds the instruction with `system_instruction::transfer` of the ledger's
/// program library. The contract states the program and the account
/// references as that function documents them, and gives the encoded
/// operation a name: it depends on the arguments alone.
#[verifier::external_body]
pub(crate) fn transfer(from: &Pubkey, to: &Pubkey, lamports: u64) -> (ix: Instruction)
    ensures
        ix@.program_id == system_program_id(),
        ix@.accounts == seq![writable_signer(from@), writable(to@)],
        ix@.data == transfer_data(from@, to@, lamports),
{
    let ix = anchor_lang::solana_program::system_instruction::transfer(
        &anchor_lang::prelude::Pubkey::new_from_array(from.bytes),
        &anchor_lang::prelude::Pubkey::new_from_array(to.bytes),
        lamports,
    );
    Instruction {
        program_id: Pubkey { bytes: ix.program_id.to_bytes() },
        accounts: ix.accounts.iter().map(|m| AccountMeta { pubkey: Pubkey { bytes: m.pubkey.to_bytes() }, is_signer: m.is_signer, is_writable: m.is_writable }).collect(),
        data: ix.data,
    }
}

/// The encoded operation of an account's creation.
pub uninterp spec fn create_account_data(from: Seq<u8>, to: Seq<u8>, lamports: u64, space: u64, owner: Seq<u8>) -> Seq<u8>;

/// The system program's instruction that creates the account `to` with
/// `space` bytes, funded with `lamports` by `from` and owned by `owner`. Both
/// accounts sign.
pub open spec fn create_account_instruction(from: Seq<u8>, to: Seq<u8>, lamports: u64, space: u64, owner: Seq<u8>) -> InstructionView {
    InstructionView {
        program_id: system_program_id(),
        accounts: seq![writable_signer(from), writable_signer(to)],
        data: create_account_data(from, to, lamports, space, owner),
    }
}

/// Builds the instruction with `system_instruction::create_account` of the
/// ledger's program library. The contract states the program and the account
/// references as that function documents them, and gives the encoded
/// operation a name: it depends on the arguments alone.
#[verifier::external_body]
pub(crate) fn create_account(from: &Pubkey, to: &Pubkey, lamports: u64, space: u64, owner: &Pubkey) -> (ix: Instruction)
    ensures
        ix@.program_id == system_program_id(),
        ix@.accounts == seq![writable_signer(from@), writable_signer(to@)],
        ix@.data == create_account_data(from@, to@, lamports, space, owner@),
{
    let ix = anchor_lang::solana_program::system_instruction::create_account(
        &anchor_lang::prelude::Pubkey::new_from_array(from.bytes),
        &anchor_lang::prelude::Pubkey::new_from_array(to.bytes),
        lamports,
        space,
        &anchor_lang::prelude::Pubkey::new_from_array(owner.bytes),
    );
    Instruction {
        program_id: Pubkey { bytes: ix.program_id.to_bytes() },
        accounts: ix.accounts.iter().map(|m| AccountMeta { pubkey: Pubkey { bytes: m.pubkey.to_bytes() }, is_signer: m.is_signer, is_writable: m.is_writable }).collect(),
        data: ix.data,
    }
}

/// The encoded operation of an allocation.
pub uninterp spec fn allocate_data(account: Seq<u8>, space: u64) -> Seq<u8>;

/// The system program's instruction that gives an account, which signs,
/// `space` bytes.
pub open spec fn allocate_instruction(account: Seq<u8>, space: u64) -> InstructionView {
    InstructionView {
        program_id: system_program_id(),
        accounts: seq![writable_signer(account)],
        data: allocate_data(account, space),
    }
}

/// Builds the instruction with `system_instruction::allocate` of the ledger's
/// program library. The contract states the program and the account
/// reference as that function documents them, and gives the encoded
/// operation a name: it depends on the arguments alone.
#[verifier::external_body]
pub(crate) fn allocate(account: &Pubkey, space: u64) -> (ix: Instruction)
    ensures
        ix@.program_id == system_program_id(),
        ix@.accounts == seq![writable_signer(account@)],
        ix@.data == allocate_data(account@, space),
{
    let ix = anchor_lang::solana_program::system_instruction::allocate(
        &anchor_lang::prelude::Pubkey::new_from_array(account.bytes),
        space,
    );
    Instruction {
        program_id: Pubkey { bytes: ix.program_id.to_bytes() },
        accounts: ix.accounts.iter().map(|m| AccountMeta { pubkey: Pubkey { bytes: m.pubkey.to_bytes() }, is_signer: m.is_signer, is_writable: m.is_writable }).collect(),
        data: ix.data,
    }
}

/// The encoded operation of an assignment.
pub uninterp spec fn assign_data(account: Seq<u8>, owner: Seq<u8>) -> Seq<u8>;

/// The system program's instruction that hands an account, which signs, over
/// to the program `owner`.
pub open spec fn assign_instruction(account: Seq<u8>, owner: Seq<u8>) -> InstructionView {
    InstructionView {
        program_id: system_program_id(),
        accounts: seq![writable_signer(account)],
        data: assign_data(account, owner),
    }
}

/// Builds the instruction with `system_instruction::assign` of the ledger's
/// program library. The contract states the program and the account
/// reference as that function documents them, and gives the encoded
/// operation a name: it depends on the arguments alone.
#[verifier::external_body]
pub(crate) fn assign(account: &Pubkey, owner: &Pubkey) -> (ix: Instruction)
    ensures
        ix@.program_id == system_program_id(),
        ix@.accounts == seq![writable_signer(account@)],
        ix@.data == assign_data(account@, owner@),
{
    let ix = anchor_lang::solana_program::system_instruction::assign(
        &anchor_lang::prelude::Pubkey::new_from_array(account.bytes),
        &anchor_lang::prelude::Pubkey::new_from_array(owner.bytes),
    );
    Instruction {
        program_id: Pubkey { bytes: ix.program_id.to_bytes() },
        accounts: ix.accounts.iter().map(|m| AccountMeta { pubkey: Pubkey { bytes: m.pubkey.to_bytes() }, is_signer: m.is_signer, is_writable: m.is_writable }).collect(),
        data: ix.data,
    }
}

/// The encoded operation of the creation of an associated token account.
pub uninterp spec fn create_associated_token_account_data(payer: Seq<u8>, wallet: Seq<u8>, mint: Seq<u8>, token_program: Seq<u8>) -> Seq<u8>;

/// The associated-token-account program's instruction that creates the token
/// account of a wallet for a mint at its derived address, paid for by
/// `payer`, who signs.
pub open spec fn create_associated_token_account_instruction(payer: Seq<u8>, wallet: Seq<u8>, mint: Seq<u8>, token_program: Seq<u8>) -> InstructionView
    recommends
        associated_token_address_under(wallet, mint, token_program) is Some,
{
    InstructionView {
        program_id: associated_token_program_id(),
        accounts: seq![
            writable_signer(payer),
            writable(associated_token_address_under(wallet, mint, token_program)->Some_0),
            readonly(wallet),
            readonly(mint),
            readonly(system_program_id()),
            readonly(token_program),
        ],
        data: create_associated_token_account_data(payer, wallet, mint, token_program),
    }
}

/// Builds the instruction with `instruction::create_associated_token_account`
/// of the associated-token-account program library. The contract states the
/// program and the account references as that function documents them, and
/// gives the encoded operation a name: it depends on the arguments alone.
/// The builder derives the account's address on its way and panics where
/// there is none, so callers have to know that there is one.
#[verifier::external_body]
pub(crate) fn create_associated_token_account(payer: &Pubkey, wallet: &Pubkey, mint: &Pubkey, token_program: &Pubkey) -> (ix: Instruction)
    requires
        associated_token_address_under(wallet@, mint@, token_program@) is Some,
    ensures
        ix@.program_id == associated_token_program_id(),
        ix@.accounts == create_associated_token_account_instruction(payer@, wallet@, mint@, token_program@).accounts,
        ix@.data == create_associated_token_account_data(payer@, wallet@, mint@, token_program@),
{
    let ix = spl_associated_token_account::instruction::create_associated_token_account(
        &anchor_lang::prelude::Pubkey::new_from_array(payer.bytes),
        &anchor_lang::prelude::Pubkey::new_from_array(wallet.bytes),
        &anchor_lang::prelude::Pubkey::new_from_array(mint.bytes),
        &anchor_lang::prelude::Pubkey::new_from_array(token_program.bytes),
    );
    Instruction {
        program_id: Pubkey { bytes: ix.program_id.to_bytes() },
        accounts: ix.accounts.iter().map(|m| AccountMeta { pubkey: Pubkey { bytes: m.pubkey.to_bytes() }, is_signer: m.is_signer, is_writable: m.is_writable }).collect(),
        data: ix.data,
    }
}

} // verus!
