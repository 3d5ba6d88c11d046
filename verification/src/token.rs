//! Token accounts: the decoded record, and readers that take single fields
//! out of the raw bytes at their fixed offsets.

use vstd::prelude::*;
use anchor_lang::solana_program::program_pack::Pack;
use crate::account::AccountInfo;
use crate::errors::ErrorCode;
use crate::keys::{key_bytes, Pubkey};

verus! {

/// The stage of a token account's life.
#[derive(Clone, Copy, Debug, PartialEq, Eq, Structural)]
pub enum AccountState {
    Uninitialized,
    Initialized,
    Frozen,
}

/// A decoded token account.
#[derive(Clone, Copy, Debug, PartialEq, Eq)]
pub struct TokenAccount {
    /// The mint whose tokens the account holds.
    pub mint: Pubkey,
    /// The wallet that owns the account.
    pub owner: Pubkey,
    /// The number of tokens held.
    pub amount: u64,
    /// Who may move `delegated_amount` tokens on the owner's behalf.
    pub delegate: Option<Pubkey>,
    pub state: AccountState,
    /// For wrapped native currency, the rent-exempt reserve.
    pub is_native: Option<u64>,
    /// The number of tokens the delegate may move.
    pub delegated_amount: u64,
    /// Who may close the account, if not the owner.
    pub close_authority: Option<Pubkey>,
}

impl TokenAccount {
    /// Whether the account was initialized: a frozen account counts.
    pub open spec fn spec_is_initialized(&self) -> bool {
        self.state != AccountState::Uninitialized
    }

    /// Whether the account was initialized: a frozen account counts.
    #[verifier::when_used_as_spec(spec_is_initialized)]
    pub fn is_initialized(&self) -> (initialized: bool)
        ensures
            initialized == self.spec_is_initialized(),
    {
        match self.state {
            AccountState::Uninitialized => false,
            _ => true,
        }
    }
}

/// The number that eight bytes stand for, least significant byte first.
pub open spec fn le_u64(bytes: Seq<u8>) -> int
    recommends
        bytes.len() == 8,
{
    bytes[0] + bytes[1] * 0x100 + bytes[2] * 0x1_0000 + bytes[3] * 0x100_0000 + bytes[4] * 0x1_0000_0000
        + bytes[5] * 0x100_0000_0000 + bytes[6] * 0x1_0000_0000_0000 + bytes[7] * 0x100_0000_0000_0000
}

/// The number that four bytes stand for, least significant byte first.
pub open spec fn le_u32(bytes: Seq<u8>) -> int
    recommends
        bytes.len() == 4,
{
    bytes[0] + bytes[1] * 0x100 + bytes[2] * 0x1_0000 + bytes[3] * 0x100_0000
}

/// The mint field of a token account's bytes: the first 32 bytes.
pub open spec fn mint_field(data: Seq<u8>) -> Seq<u8>
    recommends
        data.len() >= 32,
{
    data.subrange(0, 32)
}

/// The balance field of a token account's bytes: bytes 64 to 72, least
/// significant first.
pub open spec fn balance_field(data: Seq<u8>) -> int
    recommends
        data.len() >= 72,
{
    le_u64(data.subrange(64, 72))
}

/// The delegate field of a token account's bytes: absent where the tag in
/// bytes 72 to 76 is zero, else the 32 bytes from 76 on.
pub open spec fn delegate_field(data: Seq<u8>) -> Option<Seq<u8>>
    recommends
        data.len() >= 108,
{
    if le_u32(data.subrange(72, 76)) == 0 {
        None
    } else {
        Some(data.subrange(76, 108))
    }
}

/// The address in the 32 bytes from `offset` on.
fn key_at(data: &Vec<u8>, offset: usize) -> (key: Pubkey)
    requires
        offset + 32 <= data@.len(),
    ensures
        key@ == data@.subrange(offset as int, offset + 32),
{
    let len = data.len();
    let mut bytes = [0u8; 32];
    let mut i: usize = 0;
    while i < 32
        invariant
            i <= 32,
            len == data@.len(),
            offset + 32 <= len,
            forall|j: int| 0 <= j < i ==> bytes@[j] == data@[offset + j],
        decreases 32 - i,
    {
        bytes[i] = data[offset + i];
        i = i + 1;
    }
    assert(bytes@ =~= data@.subrange(offset as int, offset + 32));
    Pubkey { bytes }
}

/// Reads the mint out of a token account's bytes without decoding the rest.
///
/// The bytes are not checked against the token-account schema: that is the
/// caller's part.
pub fn get_mint_from_token_account(token_account_info: &AccountInfo) -> (r: Result<Pubkey, ErrorCode>)
    requires
        token_account_info.data@.len() >= 32,
    ensures
        r matches Ok(mint) && mint@ == mint_field(token_account_info.data@),
{
    Ok(key_at(&token_account_info.data, 0))
}

/// Reads the delegate out of a token account's bytes without decoding the
/// rest: none where the presence tag is zero.
///
/// The bytes are not checked against the token-account schema: that is the
/// caller's part.
pub fn get_delegate_from_token_account(token_account_info: &AccountInfo) -> (r: Result<
    Option<Pubkey>,
    ErrorCode,
>)
    requires
        token_account_info.data@.len() >= 108,
    ensures
        r matches Ok(delegate) && key_bytes(delegate) == delegate_field(token_account_info.data@),
{
    let data = &token_account_info.data;
    let key = key_at(data, 76);
    let tag: u32 = data[72] as u32 + data[73] as u32 * 0x100 + data[74] as u32 * 0x1_0000 + data[75] as u32
        * 0x100_0000;
    assert(tag == le_u32(data@.subrange(72, 76)));
    if tag == 0 {
        Ok(None)
    } else {
        Ok(Some(key))
    }
}

/// Reads the balance out of a token account's bytes without decoding the
/// rest.
///
/// The bytes are not checked against the token-account schema: that is the
/// caller's part.
pub fn get_balance_from_token_account(token_account_info: &AccountInfo) -> (r: Result<u64, ErrorCode>)
    requires
        token_account_info.data@.len() >= 72,
    ensures
        r matches Ok(balance) && balance == balance_field(token_account_info.data@),
{
    let data = &token_account_info.data;
    let balance: u64 = data[64] as u64 + data[65] as u64 * 0x100 + data[66] as u64 * 0x1_0000 + data[67] as u64
        * 0x100_0000 + data[68] as u64 * 0x1_0000_0000 + data[69] as u64 * 0x100_0000_0000 + data[70] as u64
        * 0x1_0000_0000_0000 + data[71] as u64 * 0x100_0000_0000_0000;
    assert(balance == le_u64(data@.subrange(64, 72)));
    Ok(balance)
}

/// The length of a token account's bytes.
pub const TOKEN_ACCOUNT_LEN: usize = 165;

/// The token account that the token program's decoder reads out of the
/// bytes, whatever its state, or `None` where it rejects them.
pub uninterp spec fn unpacked_token_account(data: Seq<u8>) -> Option<TokenAccount>;

/// Whether the decoded account holds, as its mint, balance and delegate, what
/// the bytes hold at the offsets of these fields.
pub open spec fn agrees_with_layout(data: Seq<u8>, account: TokenAccount) -> bool {
    &&& data.len() == TOKEN_ACCOUNT_LEN
    &&& account.mint@ == mint_field(data)
    &&& account.amount == balance_field(data)
    &&& key_bytes(account.delegate) == delegate_field(data)
}

/// Runs `Account::unpack_unchecked` of the token program's library.
///
/// The contract gives the result a name, and states of an accepted buffer
/// only its length and where the decoder takes mint, balance and delegate
/// from. The decoder's one error, for bytes it rejects, comes back as `None`.
#[verifier::external_body]
fn unpack_unchecked(data: &[u8]) -> (found: Option<TokenAccount>)
    ensures
        found == unpacked_token_account(data@),
        found matches Some(account) ==> agrees_with_layout(data@, account),
{
    let a = match spl_token::state::Account::unpack_unchecked(data) { Ok(a) => a, Err(_) => return None };
    let state = match a.state {
        spl_token::state::AccountState::Uninitialized => AccountState::Uninitialized,
        spl_token::state::AccountState::Initialized => AccountState::Initialized,
        spl_token::state::AccountState::Frozen => AccountState::Frozen,
    };
    let key = |k: anchor_lang::prelude::Pubkey| Pubkey { bytes: k.to_bytes() };
    Some(TokenAccount {
        mint: key(a.mint), owner: key(a.owner), amount: a.amount,
        delegate: Option::from(a.delegate).map(key), state,
        is_native: a.is_native.into(), delegated_amount: a.delegated_amount,
        close_authority: Option::from(a.close_authority).map(key),
    })
}

/// What a decoding yields where the account has to be initialized: the
/// account; `UninitializedAccount` where it decoded but was never
/// initialized; `InvalidAccountData` where the bytes were rejected.
pub open spec fn initialized(found: Option<TokenAccount>) -> Result<TokenAccount, ErrorCode> {
    match found {
        Some(account) => if account.spec_is_initialized() {
            Ok(account)
        } else {
            Err(ErrorCode::UninitializedAccount)
        },
        None => Err(ErrorCode::InvalidAccountData),
    }
}

/// What decoding bytes as an initialized token account yields.
pub open spec fn decoded_initialized(data: Seq<u8>) -> Result<TokenAccount, ErrorCode> {
    initialized(unpacked_token_account(data))
}

/// Decodes bytes as a token account, whatever its state; `None` where the
/// decoder rejects them.
///
/// Whenever the decoder accepts the bytes, the raw readers of this module
/// return from the same bytes exactly the mint, balance and delegate of the
/// decoded account.
pub fn unpack_token_account(data: &[u8]) -> (found: Option<TokenAccount>)
    ensures
        found == unpacked_token_account(data@),
        found matches Some(account) ==> data@.len() == TOKEN_ACCOUNT_LEN && mint_field(data@) == account.mint@
            && balance_field(data@) == account.amount && delegate_field(data@) == key_bytes(account.delegate),
{
    unpack_unchecked(data)
}

/// Demands of a decoding that it gave an initialized account. An account
/// that decoded but was never initialized is reported as such, not as
/// malformed.
pub fn check_initialized(found: Option<TokenAccount>) -> (r: Result<TokenAccount, ErrorCode>)
    ensures
        r == initialized(found),
{
    match found {
        Some(account) => {
            if !account.is_initialized() {
                Err(ErrorCode::UninitializedAccount)
            } else {
                Ok(account)
            }
        },
        None => Err(ErrorCode::InvalidAccountData),
    }
}

/// Decodes an account's bytes as a token account and checks that it was
/// initialized. Bytes that decode to an uninitialized account are reported
/// as such, not as malformed.
pub fn assert_initialized(account_info: &AccountInfo) -> (r: Result<TokenAccount, ErrorCode>)
    ensures
        r == decoded_initialized(account_info.data@),
        r is Ok ==> agrees_with_layout(account_info.data@, r->Ok_0),
{
    check_initialized(unpack_token_account(account_info.data.as_slice()))
}

/// Whether `owner` is the wallet that owns the token account.
pub fn is_token_owner(token_account: &AccountInfo, owner: &Pubkey) -> (r: Result<bool, ErrorCode>)
    ensures
        r == (match decoded_initialized(token_account.data@) {
            Ok(account) => Ok::<bool, ErrorCode>(account.owner@ == owner@),
            Err(e) => Err::<bool, ErrorCode>(e),
        }),
{
    match assert_initialized(token_account) {
        Ok(account) => Ok(account.owner.equals(owner)),
        Err(e) => Err(e),
    }
}

} // verus!
