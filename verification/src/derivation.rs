//! Program-derived addresses.

use vstd::prelude::*;
use crate::account::AccountInfo;
use crate::errors::ErrorCode;
use crate::keys::{key_bytes, Pubkey};
use crate::programs::{
    associated_token_program, associated_token_program_id, token_program, token_program_id,
};

verus! {

/// The seeds as mathematical byte sequences.
pub open spec fn seed_views(seeds: Seq<&[u8]>) -> Seq<Seq<u8>> {
    Seq::new(seeds.len(), |i: int| seeds[i]@)
}

/// The canonical program-derived address and bump for a seed path under a
/// program, or `None` where the ledger's derivation finds none.
pub uninterp spec fn program_address(seeds: Seq<Seq<u8>>, program_id: Seq<u8>) -> Option<(Seq<u8>, u8)>;

/// A derived address and its bump as mathematical values.
pub open spec fn derived_view(derived: Option<(Pubkey, u8)>) -> Option<(Seq<u8>, u8)> {
    match derived {
        Some((key, bump)) => Some((key@, bump)),
        None => None,
    }
}

/// Runs `Pubkey::try_find_program_address` of the ledger's program library.
/// The contract only gives its result a name: the address and bump depend on
/// the seeds and the program alone.
#[verifier::external_body]
fn try_find_program_address(seeds: &[&[u8]], program_id: &Pubkey) -> (found: Option<(Pubkey, u8)>)
    ensures
        derived_view(found) == program_address(seed_views(seeds@), program_id@),
{
    let id = anchor_lang::prelude::Pubkey::new_from_array(program_id.bytes);
    match anchor_lang::prelude::Pubkey::try_find_program_address(seeds, &id) {
        Some((key, bump)) => Some((Pubkey { bytes: key.to_bytes() }, bump)),
        None => None,
    }
}

/// Derives the canonical address and bump of a seed path under a program;
/// none where the ledger's derivation finds none.
pub fn find_program_address(seeds: &[&[u8]], program_id: &Pubkey) -> (found: Option<(Pubkey, u8)>)
    ensures
        derived_view(found) == program_address(seed_views(seeds@), program_id@),
{
    try_find_program_address(seeds, program_id)
}

/// What checking a bump against a derivation yields: success where the
/// derivation gave this bump, `InvalidBump` where it gave another or nothing.
pub open spec fn bump_checked(derived: Option<(Seq<u8>, u8)>, bump: u8) -> Result<(), ErrorCode> {
    match derived {
        Some((_, canonical)) => if canonical == bump {
            Ok(())
        } else {
            Err(ErrorCode::InvalidBump)
        },
        None => Err(ErrorCode::InvalidBump),
    }
}

/// Checks a bump against what was derived.
pub fn check_bump(derived: Option<(Pubkey, u8)>, bump: u8) -> (r: Result<(), ErrorCode>)
    ensures
        r == bump_checked(derived_view(derived), bump),
{
    match derived {
        Some((_, canonical)) => {
            if canonical != bump {
                Err(ErrorCode::InvalidBump)
            } else {
                Ok(())
            }
        },
        None => Err(ErrorCode::InvalidBump),
    }
}

/// Checks that `bump` is the canonical bump of the seeds under the program.
/// Where the seeds derive no address at all, no bump is canonical, and every
/// bump is refused.
pub fn assert_bump(seeds: &[&[u8]], program_id: &Pubkey, bump: u8) -> (r: Result<(), ErrorCode>)
    ensures
        r == bump_checked(program_address(seed_views(seeds@), program_id@), bump),
{
    check_bump(try_find_program_address(seeds, program_id), bump)
}

/// What checking an address against a derivation yields: the canonical bump
/// where the derivation gave this address, and `DerivedKeyInvalid` where it
/// gave another or nothing.
pub open spec fn derivation_checked(derived: Option<(Seq<u8>, u8)>, key: Seq<u8>) -> Result<u8, ErrorCode> {
    match derived {
        Some((address, bump)) => if address == key {
            Ok(bump)
        } else {
            Err(ErrorCode::DerivedKeyInvalid)
        },
        None => Err(ErrorCode::DerivedKeyInvalid),
    }
}

/// Checks an address against what was derived, and gives the bump.
pub fn check_derivation(derived: Option<(Pubkey, u8)>, key: &Pubkey) -> (r: Result<u8, ErrorCode>)
    ensures
        r == derivation_checked(derived_view(derived), key@),
{
    match derived {
        Some((address, bump)) => {
            if !address.equals(key) {
                return Err(ErrorCode::DerivedKeyInvalid);
            }
            Ok(bump)
        },
        None => Err(ErrorCode::DerivedKeyInvalid),
    }
}

/// Checks that the account's address is the one derived from `path` under
/// the program, and gives the canonical bump.
pub fn assert_derivation(program_id: &Pubkey, account: &AccountInfo, path: &[&[u8]]) -> (r: Result<u8, ErrorCode>)
    ensures
        r == derivation_checked(program_address(seed_views(path@), program_id@), account.key@),
{
    check_derivation(try_find_program_address(path, program_id), &account.key)
}

/// The seed path of the token account that a wallet holds for a mint under
/// a token program.
pub open spec fn associated_token_path(wallet: Seq<u8>, token_program: Seq<u8>, mint: Seq<u8>) -> Seq<Seq<u8>> {
    seq![wallet, token_program, mint]
}

/// The canonical address of the token account that a wallet holds for a mint
/// under a token program: the address derived from the wallet, the token
/// program and the mint under the associated-token-account program.
pub open spec fn associated_token_address_under(wallet: Seq<u8>, mint: Seq<u8>, token_program: Seq<u8>) -> Option<
    Seq<u8>,
> {
    match program_address(associated_token_path(wallet, token_program, mint), associated_token_program_id()) {
        Some((address, _)) => Some(address),
        None => None,
    }
}

/// The canonical address of the token account that a wallet holds for a mint
/// under the token program.
pub open spec fn associated_token_address(wallet: Seq<u8>, mint: Seq<u8>) -> Option<Seq<u8>> {
    associated_token_address_under(wallet, mint, token_program_id())
}

/// Derives the address of the token account that a wallet holds for a mint
/// under a token program.
pub fn get_associated_token_address_with_program_id(wallet: &Pubkey, mint: &Pubkey, token_program: &Pubkey) -> (address:
    Option<Pubkey>)
    ensures
        key_bytes(address) == associated_token_address_under(wallet@, mint@, token_program@),
{
    let seeds: [&[u8]; 3] = [wallet.bytes.as_slice(), token_program.bytes.as_slice(), mint.bytes.as_slice()];
    assert(seed_views(seeds@) =~= associated_token_path(wallet@, token_program@, mint@));
    match try_find_program_address(seeds.as_slice(), &associated_token_program()) {
        Some((address, _)) => Some(address),
        None => None,
    }
}

/// Derives the address of the token account that a wallet holds for a mint.
pub fn get_associated_token_address(wallet: &Pubkey, mint: &Pubkey) -> (address: Option<Pubkey>)
    ensures
        key_bytes(address) == associated_token_address(wallet@, mint@),
{
    get_associated_token_address_with_program_id(wallet, mint, &token_program())
}

} // verus!
