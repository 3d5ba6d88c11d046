//! Checks on accounts that guard every state change: ownership, canonical
//! token accounts, metadata, payment mints and the delegation of a payment.

use vstd::prelude::*;
use crate::account::{AccountInfo, AccountView};
use crate::derivation::{
    associated_token_address, check_derivation, derivation_checked, derived_view,
    find_program_address, get_associated_token_address, program_address, seed_views,
};
use crate::errors::ErrorCode;
use crate::keys::{assert_keys_equal, key_bytes, Pubkey};
use crate::programs::{
    metadata_prefix, metadata_program, metadata_program_id, metadata_seed, native_mint,
    native_mint_id, token_program, token_program_id,
};
use crate::states::ProgramConstants;
use crate::token::{
    check_initialized, initialized, unpack_token_account, unpacked_token_account, TokenAccount,
};

verus! {

/// Checks that the account is owned by the program `owner`.
pub fn assert_owned_by(account: &AccountInfo, owner: &Pubkey) -> (r: Result<(), ErrorCode>)
    ensures
        account.owner@ == owner@ ==> r == Ok::<(), ErrorCode>(()),
        account.owner@ != owner@ ==> r == Err::<(), ErrorCode>(ErrorCode::IncorrectOwner),
{
    if !account.owner.equals(owner) {
        Err(ErrorCode::IncorrectOwner)
    } else {
        Ok(())
    }
}

/// What checking an account as the associated token account of `wallet` for
/// `mint` yields, given what its bytes decoded to and what address was
/// derived for `wallet` and `mint`. The checks run in this order: the token
/// program owns the account; its bytes decoded to an initialized token
/// account; the token account's owner is `optional_owner` or `wallet`; its
/// mint is `mint`; its address is the derived one. Where no address was
/// derived, the last check fails.
pub open spec fn ata_checked(
    ata: AccountView,
    found: Option<TokenAccount>,
    derived: Option<Seq<u8>>,
    wallet: Seq<u8>,
    mint: Seq<u8>,
    optional_owner: Seq<u8>,
) -> Result<TokenAccount, ErrorCode> {
    if ata.owner@ != token_program_id() {
        Err(ErrorCode::IncorrectOwner)
    } else {
        match initialized(found) {
            Err(e) => Err(e),
            Ok(account) => if account.owner@ != optional_owner && account.owner@ != wallet {
                Err(ErrorCode::PublicKeyMismatch)
            } else if account.mint@ != mint {
                Err(ErrorCode::PublicKeyMismatch)
            } else if derived != Some(ata.key@) {
                Err(ErrorCode::PublicKeyMismatch)
            } else {
                Ok(account)
            },
        }
    }
}

/// What checking an account as the associated token account of `wallet` for
/// `mint` yields.
pub open spec fn checked_ata(ata: AccountView, wallet: Seq<u8>, mint: Seq<u8>, optional_owner: Seq<u8>) -> Result<
    TokenAccount,
    ErrorCode,
> {
    ata_checked(
        ata,
        unpacked_token_account(ata.data),
        associated_token_address(wallet, mint),
        wallet,
        mint,
        optional_owner,
    )
}

/// Checks an account as the associated token account of `wallet` for `mint`,
/// given what its bytes decoded to and what address was derived for `wallet`
/// and `mint`.
pub fn check_ata(
    ata: &AccountInfo,
    found: Option<TokenAccount>,
    derived: Option<Pubkey>,
    wallet: &Pubkey,
    mint: &Pubkey,
    optional_owner: &Pubkey,
) -> (r: Result<TokenAccount, ErrorCode>)
    ensures
        r == ata_checked(ata@, found, key_bytes(derived), wallet@, mint@, optional_owner@),
        r matches Ok(account) ==> {
            &&& key_bytes(derived) == Some(ata.key@)
            &&& account.mint@ == mint@
            &&& (account.owner@ == wallet@ || account.owner@ == optional_owner@)
            &&& ata.owner@ == token_program_id()
            &&& found == Some(account)
            &&& account.spec_is_initialized()
        },
{
    match assert_owned_by(ata, &token_program()) {
        Ok(_) => {},
        Err(e) => {
            return Err(e);
        },
    }
    let ata_account = match check_initialized(found) {
        Ok(account) => account,
        Err(e) => {
            return Err(e);
        },
    };
    if !ata_account.owner.equals(optional_owner) {
        match assert_keys_equal(&ata_account.owner, wallet) {
            Ok(_) => {},
            Err(e) => {
                return Err(e);
            },
        }
    }
    match assert_keys_equal(&ata_account.mint, mint) {
        Ok(_) => {},
        Err(e) => {
            return Err(e);
        },
    }
    match derived {
        Some(address) => match assert_keys_equal(&address, &ata.key) {
            Ok(_) => {},
            Err(e) => {
                return Err(e);
            },
        },
        None => {
            return Err(ErrorCode::PublicKeyMismatch);
        },
    }
    Ok(ata_account)
}

/// Checks that `ata` is the associated token account of `wallet` for `mint`,
/// and gives the decoded token account. The token account may also be owned
/// by `optional_owner` instead of `wallet`.
///
/// Success is owed only to an account at the canonical address for `wallet`
/// and `mint`, whose mint is `mint` and whose owner is `wallet` or
/// `optional_owner`.
pub fn assert_is_ata(ata: &AccountInfo, wallet: &Pubkey, mint: &Pubkey, optional_owner: &Pubkey) -> (r: Result<
    TokenAccount,
    ErrorCode,
>)
    ensures
        r == checked_ata(ata@, wallet@, mint@, optional_owner@),
        r matches Ok(account) ==> {
            &&& associated_token_address(wallet@, mint@) == Some(ata.key@)
            &&& account.mint@ == mint@
            &&& (account.owner@ == wallet@ || account.owner@ == optional_owner@)
            &&& ata.owner@ == token_program_id()
            &&& unpacked_token_account(ata.data@) == Some(account)
            &&& account.spec_is_initialized()
        },
{
    check_ata(
        ata,
        unpack_token_account(ata.data.as_slice()),
        get_associated_token_address(wallet, mint),
        wallet,
        mint,
        optional_owner,
    )
}

/// The seed path of the metadata account of a mint.
pub open spec fn metadata_path(token_mint: Seq<u8>) -> Seq<Seq<u8>> {
    seq![metadata_prefix(), metadata_program_id(), token_mint]
}

/// What checking a metadata account yields, given what was derived for its
/// mint. The checks run in this order: the address is the derived one; the
/// metadata program owns the account; the account holds data.
pub open spec fn metadata_checked(metadata: AccountView, derived: Option<(Seq<u8>, u8)>) -> Result<(), ErrorCode> {
    match derivation_checked(derived, metadata.key@) {
        Err(e) => Err(e),
        Ok(_) => if metadata.owner@ != metadata_program_id() {
            Err(ErrorCode::IncorrectOwner)
        } else if metadata.data.len() == 0 {
            Err(ErrorCode::MetadataDoesntExist)
        } else {
            Ok(())
        },
    }
}

/// What checking `metadata` as the metadata account of `token_mint` yields.
pub open spec fn checked_metadata(metadata: AccountView, token_mint: Seq<u8>) -> Result<(), ErrorCode> {
    metadata_checked(metadata, program_address(metadata_path(token_mint), metadata_program_id()))
}

/// Checks a metadata account, given what was derived for its mint.
pub fn check_metadata(metadata: &AccountInfo, derived: Option<(Pubkey, u8)>) -> (r: Result<(), ErrorCode>)
    ensures
        r == metadata_checked(metadata@, derived_view(derived)),
{
    match check_derivation(derived, &metadata.key) {
        Ok(_) => {},
        Err(e) => {
            return Err(e);
        },
    }
    match assert_owned_by(metadata, &metadata_program()) {
        Ok(_) => {},
        Err(e) => {
            return Err(e);
        },
    }
    if metadata.data_is_empty() {
        return Err(ErrorCode::MetadataDoesntExist);
    }
    Ok(())
}

/// Checks that `metadata` is the metadata account of `token_mint`: at the
/// derived address, owned by the metadata program, and not empty.
pub fn assert_metadata_valid(metadata: &AccountInfo, token_mint: &Pubkey) -> (r: Result<(), ErrorCode>)
    ensures
        r == checked_metadata(metadata@, token_mint@),
{
    let program = metadata_program();
    let prefix = metadata_seed();
    let seeds: [&[u8]; 3] = [prefix.as_slice(), program.bytes.as_slice(), token_mint.bytes.as_slice()];
    assert(seed_views(seeds@) =~= metadata_path(token_mint@));
    check_metadata(metadata, find_program_address(seeds.as_slice(), &program))
}

/// Whether `mint` is among the mints.
pub open spec fn is_listed(mints: Seq<Pubkey>, mint: Seq<u8>) -> bool {
    exists|i: int| 0 <= i < mints.len() && #[trigger] mints[i]@ == mint
}

/// Checks that the mint is an accepted payment mint: listed among the valid
/// payment mints, and owned by the token program.
pub fn assert_payment_mint(mint_ai: &AccountInfo, constants: &ProgramConstants) -> (r: Result<(), ErrorCode>)
    ensures
        r == (if is_listed(constants.valid_payment_mints@, mint_ai.key@) && mint_ai.owner@ == token_program_id() {
            Ok::<(), ErrorCode>(())
        } else {
            Err::<(), ErrorCode>(ErrorCode::InvalidTokenMint)
        }),
{
    let mints = &constants.valid_payment_mints;
    let mut listed = false;
    let mut i: usize = 0;
    while i < mints.len()
        invariant
            i <= mints@.len(),
            listed == (exists|j: int| 0 <= j < i && #[trigger] mints@[j]@ == mint_ai.key@),
        decreases mints@.len() - i,
    {
        if mints[i].equals(&mint_ai.key) {
            listed = true;
        }
        i = i + 1;
    }
    if !listed || !mint_ai.owner.equals(&token_program()) {
        Err(ErrorCode::InvalidTokenMint)
    } else {
        Ok(())
    }
}

/// The two ways of paying: with tokens that the source account has
/// delegated, or with native currency straight from the wallet.
#[derive(Clone, Copy, Debug, PartialEq, Eq)]
pub enum PaymentPath {
    /// The source decodes as an initialized token account.
    TokenDelegation { token_account: TokenAccount },
    /// The source does not: the payment is in native currency.
    NativeTransfer,
}

/// The way of paying that a decoding of the source account calls for:
/// delegated tokens where it gave an initialized token account, native
/// currency where it did not.
pub open spec fn path_for(found: Option<TokenAccount>) -> PaymentPath {
    match initialized(found) {
        Ok(token_account) => PaymentPath::TokenDelegation { token_account },
        Err(_) => PaymentPath::NativeTransfer,
    }
}

/// The way of paying that the source account's bytes call for.
pub open spec fn payment_path(data: Seq<u8>) -> PaymentPath {
    path_for(unpacked_token_account(data))
}

/// Decides the way of paying from a decoding of the source account.
pub fn payment_path_for(found: Option<TokenAccount>) -> (path: PaymentPath)
    ensures
        path == path_for(found),
{
    match check_initialized(found) {
        Ok(token_account) => PaymentPath::TokenDelegation { token_account },
        Err(_) => PaymentPath::NativeTransfer,
    }
}

/// Decides the way of paying by attempting to decode the source account.
pub fn resolve_payment_path(src_account: &AccountInfo) -> (path: PaymentPath)
    ensures
        path == payment_path(src_account.data@),
{
    payment_path_for(unpack_token_account(src_account.data.as_slice()))
}

/// What checking a delegated token payment yields. The checks run in this
/// order: exactly `paysize` tokens are delegated; the delegate is the
/// transfer authority; the source and then the destination are the
/// associated token accounts of their wallets for the mint.
pub open spec fn checked_token_delegation(
    token_account: TokenAccount,
    src_account: AccountView,
    dst_account: AccountView,
    src_wallet: AccountView,
    dst_wallet: AccountView,
    transfer_authority: AccountView,
    mint: Seq<u8>,
    paysize: u64,
) -> Result<(), ErrorCode> {
    if token_account.delegated_amount != paysize {
        Err(ErrorCode::InvalidAccountState)
    } else if key_bytes(token_account.delegate) != Some(transfer_authority.key@) {
        Err(ErrorCode::InvalidAccountState)
    } else {
        match checked_ata(src_account, src_wallet.key@, mint, src_wallet.key@) {
            Err(e) => Err(e),
            Ok(_) => match checked_ata(dst_account, dst_wallet.key@, mint, dst_wallet.key@) {
                Err(e) => Err(e),
                Ok(_) => Ok(()),
            },
        }
    }
}

/// Checks a payment in delegated tokens.
pub fn assert_token_delegation(
    token_account: &TokenAccount,
    src_account: &AccountInfo,
    dst_account: &AccountInfo,
    src_wallet: &AccountInfo,
    dst_wallet: &AccountInfo,
    transfer_authority: &AccountInfo,
    mint: &Pubkey,
    paysize: u64,
) -> (r: Result<(), ErrorCode>)
    ensures
        r == checked_token_delegation(
            *token_account,
            src_account@,
            dst_account@,
            src_wallet@,
            dst_wallet@,
            transfer_authority@,
            mint@,
            paysize,
        ),
{
    if token_account.delegated_amount != paysize {
        return Err(ErrorCode::InvalidAccountState);
    }
    match token_account.delegate {
        Some(delegate) => {
            if !delegate.equals(&transfer_authority.key) {
                return Err(ErrorCode::InvalidAccountState);
            }
        },
        None => {
            return Err(ErrorCode::InvalidAccountState);
        },
    }
    match assert_is_ata(src_account, &src_wallet.key, mint, &src_wallet.key) {
        Ok(_) => {},
        Err(e) => {
            return Err(e);
        },
    }
    match assert_is_ata(dst_account, &dst_wallet.key, mint, &dst_wallet.key) {
        Ok(_) => {},
        Err(e) => {
            return Err(e);
        },
    }
    Ok(())
}

/// What checking a payment in native currency yields. The checks run in this
/// order: the mint is the wrapped native-currency mint; the source wallet
/// signed; the source wallet is the source account; the destination wallet is
/// the destination account.
pub open spec fn checked_native_transfer(
    src_account: AccountView,
    dst_account: AccountView,
    src_wallet: AccountView,
    dst_wallet: AccountView,
    mint: Seq<u8>,
) -> Result<(), ErrorCode> {
    if mint != native_mint_id() {
        Err(ErrorCode::ExpectedSolAccount)
    } else if !src_wallet.is_signer {
        Err(ErrorCode::SOLWalletMustSign)
    } else if src_wallet.key@ != src_account.key@ {
        Err(ErrorCode::PublicKeyMismatch)
    } else if dst_wallet.key@ != dst_account.key@ {
        Err(ErrorCode::PublicKeyMismatch)
    } else {
        Ok(())
    }
}

/// Checks a payment in native currency.
pub fn assert_native_transfer(
    src_account: &AccountInfo,
    dst_account: &AccountInfo,
    src_wallet: &AccountInfo,
    dst_wallet: &AccountInfo,
    mint: &Pubkey,
) -> (r: Result<(), ErrorCode>)
    ensures
        r == checked_native_transfer(src_account@, dst_account@, src_wallet@, dst_wallet@, mint@),
{
    if !mint.equals(&native_mint()) {
        return Err(ErrorCode::ExpectedSolAccount);
    }
    if !src_wallet.is_signer {
        return Err(ErrorCode::SOLWalletMustSign);
    }
    match assert_keys_equal(&src_wallet.key, &src_account.key) {
        Ok(_) => {},
        Err(e) => {
            return Err(e);
        },
    }
    assert_keys_equal(&dst_wallet.key, &dst_account.key)
}

/// What checking the delegation of a payment yields, on either path.
pub open spec fn checked_delegation(
    src_account: AccountView,
    dst_account: AccountView,
    src_wallet: AccountView,
    dst_wallet: AccountView,
    transfer_authority: AccountView,
    mint: Seq<u8>,
    paysize: u64,
) -> Result<(), ErrorCode> {
    match payment_path(src_account.data) {
        PaymentPath::TokenDelegation { token_account } => checked_token_delegation(
            token_account,
            src_account,
            dst_account,
            src_wallet,
            dst_wallet,
            transfer_authority,
            mint,
            paysize,
        ),
        PaymentPath::NativeTransfer => checked_native_transfer(
            src_account,
            dst_account,
            src_wallet,
            dst_wallet,
            mint,
        ),
    }
}

/// Checks that a payment of `paysize` from `src_account` to `dst_account` is
/// set up: as a delegation of tokens to the transfer authority where the
/// source is a token account, and as a signed native-currency payment where
/// it is not.
pub fn assert_valid_delegation(
    src_account: &AccountInfo,
    dst_account: &AccountInfo,
    src_wallet: &AccountInfo,
    dst_wallet: &AccountInfo,
    transfer_authority: &AccountInfo,
    mint: &Pubkey,
    paysize: u64,
) -> (r: Result<(), ErrorCode>)
    ensures
        r == checked_delegation(
            src_account@,
            dst_account@,
            src_wallet@,
            dst_wallet@,
            transfer_authority@,
            mint@,
            paysize,
        ),
{
    match resolve_payment_path(src_account) {
        PaymentPath::TokenDelegation { token_account } => assert_token_delegation(
            &token_account,
            src_account,
            dst_account,
            src_wallet,
            dst_wallet,
            transfer_authority,
            mint,
            paysize,
        ),
        PaymentPath::NativeTransfer => assert_native_transfer(
            src_account,
            dst_account,
            src_wallet,
            dst_wallet,
            mint,
        ),
    }
}

} // verus!
