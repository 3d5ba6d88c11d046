//! Accounts as the ledger hands them to a transaction.

use vstd::prelude::*;
use vstd::slice::slice_subrange;
use crate::errors::ErrorCode;
use crate::keys::Pubkey;

verus! {

/// One account of the ledger for the duration of a transaction: its address,
/// the program that owns it, its native-currency balance, its flags and its
/// raw bytes.
#[derive(Clone, Debug, PartialEq, Eq)]
pub struct AccountInfo {
    /// The account's address.
    pub key: Pubkey,
    /// Whether the transaction was signed for this account.
    pub is_signer: bool,
    /// Whether the transaction may write to this account.
    pub is_writable: bool,
    /// The balance in lamports.
    pub lamports: u64,
    /// The account's bytes.
    pub data: Vec<u8>,
    /// The program that owns the account.
    pub owner: Pubkey,
    /// Whether the account holds a program.
    pub executable: bool,
    /// The epoch at which rent is next due.
    pub rent_epoch: u64,
}

/// An account as a mathematical value.
pub struct AccountView {
    pub key: Pubkey,
    pub is_signer: bool,
    pub is_writable: bool,
    pub lamports: u64,
    pub data: Seq<u8>,
    pub owner: Pubkey,
    pub executable: bool,
    pub rent_epoch: u64,
}

impl View for AccountInfo {
    type V = AccountView;

    open spec fn view(&self) -> AccountView {
        AccountView {
            key: self.key,
            is_signer: self.is_signer,
            is_writable: self.is_writable,
            lamports: self.lamports,
            data: self.data@,
            owner: self.owner,
            executable: self.executable,
            rent_epoch: self.rent_epoch,
        }
    }
}

impl AccountInfo {
    /// An account with the given contents.
    pub fn new(
        key: Pubkey,
        is_signer: bool,
        is_writable: bool,
        lamports: u64,
        data: Vec<u8>,
        owner: Pubkey,
        executable: bool,
        rent_epoch: u64,
    ) -> (account: AccountInfo)
        ensures
            account == (AccountInfo {
                key,
                is_signer,
                is_writable,
                lamports,
                data,
                owner,
                executable,
                rent_epoch,
            }),
    {
        AccountInfo { key, is_signer, is_writable, lamports, data, owner, executable, rent_epoch }
    }

    /// The balance in lamports.
    pub fn lamports(&self) -> (balance: u64)
        ensures
            balance == self.lamports,
    {
        self.lamports
    }

    /// Whether the account holds no bytes.
    pub fn data_is_empty(&self) -> (empty: bool)
        ensures
            empty == (self.data@.len() == 0),
    {
        self.data.len() == 0
    }

    /// The number of bytes the account holds.
    pub fn data_len(&self) -> (len: usize)
        ensures
            len == self.data@.len(),
    {
        self.data.len()
    }
}

/// Splits an optional payer off the end of the remaining accounts: the last
/// account is the payer where it signed. Gives the accounts that are left
/// and the payer.
pub fn split_payer_from_remaining_accounts<'a>(remaining_accounts: &'a [AccountInfo]) -> (r: (
    &'a [AccountInfo],
    Option<&'a AccountInfo>,
))
    ensures
        remaining_accounts@.len() > 0 && remaining_accounts@.last().is_signer ==> r.0@
            == remaining_accounts@.drop_last() && r.1 == Some(&remaining_accounts@.last()),
        !(remaining_accounts@.len() > 0 && remaining_accounts@.last().is_signer) ==> r.0@ == remaining_accounts@
            && r.1 is None,
{
    let len = remaining_accounts.len();
    if len == 0 {
        (remaining_accounts, None)
    } else {
        let last = &remaining_accounts[len - 1];
        if last.is_signer {
            (slice_subrange(remaining_accounts, 0, len - 1), Some(last))
        } else {
            (remaining_accounts, None)
        }
    }
}

/// The remaining account at position `i`, or `MissingRemainingAccount` where
/// there are not that many.
pub fn index_ra<'a>(remaining_accounts: &'a [AccountInfo], i: usize) -> (r: Result<&'a AccountInfo, ErrorCode>)
    ensures
        i < remaining_accounts@.len() ==> r == Ok::<&AccountInfo, ErrorCode>(&remaining_accounts@[i as int]),
        i >= remaining_accounts@.len() ==> r == Err::<&AccountInfo, ErrorCode>(ErrorCode::MissingRemainingAccount),
{
    if i < remaining_accounts.len() {
        Ok(&remaining_accounts[i])
    } else {
        Err(ErrorCode::MissingRemainingAccount)
    }
}

} // verus!
