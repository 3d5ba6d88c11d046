//! The notary gate: a sampled requirement that the auction house's notary
//! co-signs.
//!
//! The sample is drawn from the ledger clock. It spreads the notary's load;
//! it is predictable, and no protection against a party that picks its
//! moment.

use vstd::prelude::*;
use crate::account::{AccountInfo, AccountView};
use crate::errors::ErrorCode;
use crate::states::AuctionHouse;

verus! {

/// The sample that a clock reading stands for: its absolute value modulo 100.
pub open spec fn clock_sample(unix_timestamp: i64) -> int {
    (if unix_timestamp < 0 {
        -(unix_timestamp as int)
    } else {
        unix_timestamp as int
    }) % 100
}

/// Whether the notary's signature is demanded: the auction house requires a
/// notary and the sample lies below `enforce_prob`.
pub open spec fn notary_enforced(auction_house: AuctionHouse, enforce_prob: u8, unix_timestamp: i64) -> bool {
    auction_house.requires_notary && clock_sample(unix_timestamp) < enforce_prob
}

/// The outcome at the notary gate: where the signature is demanded, it refuses a
/// notary account that did not sign or is not the auction house's notary.
pub open spec fn notary_gate(auction_house: AuctionHouse, notary: AccountView, enforce_prob: u8, unix_timestamp: i64) -> Result<
    (),
    ErrorCode,
> {
    if notary_enforced(auction_house, enforce_prob, unix_timestamp) && !(notary.is_signer && notary.key@
        == auction_house.notary@) {
        Err(ErrorCode::InvalidAccountState)
    } else {
        Ok(())
    }
}

/// Computes the sample of a clock reading.
fn sample(unix_timestamp: i64) -> (s: u8)
    ensures
        s == clock_sample(unix_timestamp),
{
    let magnitude: u64 = if unix_timestamp >= 0 {
        unix_timestamp as u64
    } else {
        (-(unix_timestamp + 1)) as u64 + 1
    };
    (magnitude % 100) as u8
}

/// Passes the notary gate at the given reading of the ledger clock.
/// `enforce_prob`, from 0 to 100, is the share of readings at which a
/// required notary is in fact demanded.
pub fn assert_valid_notary(auction_house: &AuctionHouse, notary: &AccountInfo, enforce_prob: u8, unix_timestamp: i64) -> (r:
    Result<(), ErrorCode>)
    ensures
        r == notary_gate(*auction_house, notary@, enforce_prob, unix_timestamp),
{
    if auction_house.requires_notary {
        if sample(unix_timestamp) >= enforce_prob {
            return Ok(());
        }
        if !notary.is_signer {
            return Err(ErrorCode::InvalidAccountState);
        }
        if !notary.key.equals(&auction_house.notary) {
            return Err(ErrorCode::InvalidAccountState);
        }
    }
    Ok(())
}

/// An auction house that requires no notary lets every notary account pass,
/// at every reading and every rate.
pub proof fn lemma_gate_open_without_notary(
    auction_house: AuctionHouse,
    notary: AccountView,
    enforce_prob: u8,
    unix_timestamp: i64,
)
    requires
        !auction_house.requires_notary,
    ensures
        notary_gate(auction_house, notary, enforce_prob, unix_timestamp) == Ok::<(), ErrorCode>(()),
{
}

/// At a rate of 100 a required notary is demanded at every reading: the notary gate
/// then passes exactly the auction house's notary with its signature, and
/// refuses every other account with `InvalidAccountState`.
pub proof fn lemma_gate_shut_at_full_rate(
    auction_house: AuctionHouse,
    notary: AccountView,
    enforce_prob: u8,
    unix_timestamp: i64,
)
    requires
        auction_house.requires_notary,
        enforce_prob >= 100,
    ensures
        notary_enforced(auction_house, enforce_prob, unix_timestamp),
        !notary.is_signer || notary.key@ != auction_house.notary@ ==> notary_gate(
            auction_house,
            notary,
            enforce_prob,
            unix_timestamp,
        ) == Err::<(), ErrorCode>(ErrorCode::InvalidAccountState),
        notary.is_signer && notary.key@ == auction_house.notary@ ==> notary_gate(
            auction_house,
            notary,
            enforce_prob,
            unix_timestamp,
        ) == Ok::<(), ErrorCode>(()),
{
}

} // verus!
