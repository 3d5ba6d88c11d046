//! The addresses of the ledger's programs and mints that the validators
//! name.

use vstd::prelude::*;
use crate::keys::Pubkey;

verus! {

/// The bytes of the token program's address,
/// `TokenkegQfeZyiNwAJbNbGKPFXCWuBvf9Ss623VQ5DA`.
pub open spec fn token_program_id() -> Seq<u8> {
    seq![
        6u8, 221, 246, 225, 215, 101, 161, 147, 217, 203, 225, 70, 206, 235, 121, 172,
        28, 180, 133, 237, 95, 91, 55, 145, 58, 140, 245, 133, 126, 255, 0, 169,
    ]
}

/// The bytes of the wrapped native-currency mint's address,
/// `So11111111111111111111111111111111111111112`.
pub open spec fn native_mint_id() -> Seq<u8> {
    seq![
        6u8, 155, 136, 87, 254, 171, 129, 132, 251, 104, 127, 99, 70, 24, 192, 53,
        218, 196, 57, 220, 26, 235, 59, 85, 152, 160, 240, 0, 0, 0, 0, 1,
    ]
}

/// The bytes of the token-metadata program's address,
/// `metaqbxxUerdq28cj1RbAWkYQm3ybzjb6a8bt518x1s`.
pub open spec fn metadata_program_id() -> Seq<u8> {
    seq![
        11u8, 112, 101, 177, 227, 209, 124, 69, 56, 157, 82, 127, 107, 4, 195, 205,
        88, 184, 108, 115, 26, 160, 253, 181, 73, 182, 209, 188, 3, 248, 41, 70,
    ]
}

/// The bytes of the associated-token-account program's address,
/// `ATokenGPvbdGVxr1b2hvZbsiqW5xWH25efTNsLJA8knL`.
pub open spec fn associated_token_program_id() -> Seq<u8> {
    seq![
        140u8, 151, 37, 143, 78, 36, 137, 241, 187, 61, 16, 41, 20, 142, 13, 131,
        11, 90, 19, 153, 218, 255, 16, 132, 4, 142, 123, 216, 219, 233, 248, 89,
    ]
}

/// The seed that every metadata address starts from: the ASCII bytes of
/// `metadata`.
pub open spec fn metadata_prefix() -> Seq<u8> {
    seq![109u8, 101, 116, 97, 100, 97, 116, 97]
}

/// The token program's address.
pub fn token_program() -> (id: Pubkey)
    ensures
        id@ == token_program_id(),
{
    let id = Pubkey {
        bytes: [
            6, 221, 246, 225, 215, 101, 161, 147, 217, 203, 225, 70, 206, 235, 121, 172,
            28, 180, 133, 237, 95, 91, 55, 145, 58, 140, 245, 133, 126, 255, 0, 169,
        ],
    };
    assert(id@ =~= token_program_id());
    id
}

/// The wrapped native-currency mint's address.
pub fn native_mint() -> (id: Pubkey)
    ensures
        id@ == native_mint_id(),
{
    let id = Pubkey {
        bytes: [
            6, 155, 136, 87, 254, 171, 129, 132, 251, 104, 127, 99, 70, 24, 192, 53,
            218, 196, 57, 220, 26, 235, 59, 85, 152, 160, 240, 0, 0, 0, 0, 1,
        ],
    };
    assert(id@ =~= native_mint_id());
    id
}

/// The token-metadata program's address.
pub fn metadata_program() -> (id: Pubkey)
    ensures
        id@ == metadata_program_id(),
{
    let id = Pubkey {
        bytes: [
            11, 112, 101, 177, 227, 209, 124, 69, 56, 157, 82, 127, 107, 4, 195, 205,
            88, 184, 108, 115, 26, 160, 253, 181, 73, 182, 209, 188, 3, 248, 41, 70,
        ],
    };
    assert(id@ =~= metadata_program_id());
    id
}

/// The associated-token-account program's address.
pub fn associated_token_program() -> (id: Pubkey)
    ensures
        id@ == associated_token_program_id(),
{
    let id = Pubkey {
        bytes: [
            140, 151, 37, 143, 78, 36, 137, 241, 187, 61, 16, 41, 20, 142, 13, 131,
            11, 90, 19, 153, 218, 255, 16, 132, 4, 142, 123, 216, 219, 233, 248, 89,
        ],
    };
    assert(id@ =~= associated_token_program_id());
    id
}

/// The seed that every metadata address starts from.
pub fn metadata_seed() -> (seed: [u8; 8])
    ensures
        seed@ == metadata_prefix(),
{
    let seed: [u8; 8] = [109, 101, 116, 97, 100, 97, 116, 97];
    assert(seed@ =~= metadata_prefix());
    seed
}

} // verus!
