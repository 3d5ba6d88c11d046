//! What the marketplace reads of an asset's metadata and token record.

use vstd::prelude::*;
use mpl_token_metadata::{accounts, types};
use crate::account::AccountInfo;
use crate::errors::ErrorCode;
use crate::keys::Pubkey;

verus! {

/// The standard that an asset follows.
#[derive(Clone, Copy, Debug, PartialEq, Eq, Structural)]
pub enum TokenStandard {
    NonFungible,
    FungibleAsset,
    Fungible,
    NonFungibleEdition,
    ProgrammableNonFungible,
    ProgrammableNonFungibleEdition,
}

/// The part of an asset's metadata that the marketplace reads.
#[derive(Clone, Copy, Debug, PartialEq, Eq, Structural)]
pub struct Metadata {
    /// The asset's standard, where the metadata records one.
    pub token_standard: Option<TokenStandard>,
}

/// What a delegate of a programmable asset may do.
#[derive(Clone, Copy, Debug, PartialEq, Eq, Structural)]
pub enum TokenDelegateRole {
    Sale,
    Transfer,
    Utility,
    Staking,
    Standard,
    LockedTransfer,
    Migration,
}

/// Whether a programmable asset may be moved.
#[derive(Clone, Copy, Debug, PartialEq, Eq, Structural)]
pub enum TokenState {
    Unlocked,
    Locked,
    Listed,
}

/// The part of a token record that the marketplace reads.
#[derive(Clone, Copy, Debug, PartialEq, Eq)]
pub struct TokenRecord {
    pub state: TokenState,
    pub delegate: Option<Pubkey>,
    pub delegate_role: Option<TokenDelegateRole>,
}

/// Checks that the asset is a programmable non-fungible.
pub fn check_programmable(metadata_parsed: &Metadata) -> (r: Result<(), ErrorCode>)
    ensures
        metadata_parsed.token_standard == Some(TokenStandard::ProgrammableNonFungible) ==> r == Ok::<(), ErrorCode>(
            (),
        ),
        metadata_parsed.token_standard != Some(TokenStandard::ProgrammableNonFungible) ==> r == Err::<
            (),
            ErrorCode,
        >(ErrorCode::InvalidTokenStandard),
{
    match metadata_parsed.token_standard {
        None => Err(ErrorCode::InvalidTokenStandard),
        Some(TokenStandard::ProgrammableNonFungible) => Ok(()),
        Some(_) => Err(ErrorCode::InvalidTokenStandard),
    }
}

/// The token record that the metadata program's decoder reads out of the
/// bytes, or `None` where it rejects them.
pub uninterp spec fn deserialized_token_record(data: Seq<u8>) -> Option<TokenRecord>;

/// Runs `TokenRecord::safe_deserialize` of the metadata program's library.
/// The contract only gives the result a name: it depends on the bytes alone.
/// Every error of the decoder comes back as `None`.
#[verifier::external_body]
fn safe_deserialize(data: &[u8]) -> (found: Option<TokenRecord>)
    ensures
        found == deserialized_token_record(data@),
{
    let r = accounts::TokenRecord::safe_deserialize(data).ok()?;
    let delegate_role = r.delegate_role.map(|role| match role {
        types::TokenDelegateRole::Sale => TokenDelegateRole::Sale,
        types::TokenDelegateRole::Transfer => TokenDelegateRole::Transfer,
        types::TokenDelegateRole::Utility => TokenDelegateRole::Utility,
        types::TokenDelegateRole::Staking => TokenDelegateRole::Staking,
        types::TokenDelegateRole::Standard => TokenDelegateRole::Standard,
        types::TokenDelegateRole::LockedTransfer => TokenDelegateRole::LockedTransfer,
        types::TokenDelegateRole::Migration => TokenDelegateRole::Migration,
    });
    Some(TokenRecord { delegate: r.delegate.map(|k| Pubkey { bytes: k.to_bytes() }), delegate_role, state: match r.state {
        types::TokenState::Unlocked => TokenState::Unlocked,
        types::TokenState::Locked => TokenState::Locked,
        types::TokenState::Listed => TokenState::Listed,
    } })
}

/// Decodes bytes as a token record; `None` where the decoder rejects them.
pub fn deserialize_token_record(data: &[u8]) -> (found: Option<TokenRecord>)
    ensures
        found == deserialized_token_record(data@),
{
    safe_deserialize(data)
}

/// What reading delegate, role and state out of a decoding yields: the three
/// fields, or `BorshIoError` where the bytes were rejected.
pub open spec fn record_fields(found: Option<TokenRecord>) -> Result<
    (Option<Pubkey>, Option<TokenDelegateRole>, TokenState),
    ErrorCode,
> {
    match found {
        Some(record) => Ok((record.delegate, record.delegate_role, record.state)),
        None => Err(ErrorCode::BorshIoError),
    }
}

/// Takes the delegate, the delegate's role and the state out of a decoding.
pub fn token_record_fields(found: Option<TokenRecord>) -> (r: Result<
    (Option<Pubkey>, Option<TokenDelegateRole>, TokenState),
    ErrorCode,
>)
    ensures
        r == record_fields(found),
{
    match found {
        Some(token_record) => Ok((token_record.delegate, token_record.delegate_role, token_record.state)),
        None => Err(ErrorCode::BorshIoError),
    }
}

/// Reads the delegate, the delegate's role and the state out of the token
/// record that the account holds.
pub fn get_delegate_info_and_token_state_from_token_record(info: &AccountInfo) -> (r: Result<
    (Option<Pubkey>, Option<TokenDelegateRole>, TokenState),
    ErrorCode,
>)
    ensures
        r == record_fields(deserialized_token_record(info.data@)),
{
    token_record_fields(deserialize_token_record(info.data.as_slice()))
}

} // verus!
