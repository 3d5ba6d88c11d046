//! The program's own records, as far as the settlement logic reads them.

use vstd::prelude::*;
use crate::keys::Pubkey;

verus! {

/// The configuration of one auction house.
#[derive(Clone, Copy, Debug, PartialEq, Eq)]
pub struct AuctionHouse {
    /// The treasury's gross share of a sale, in basis points.
    pub seller_fee_basis_points: u16,
    /// The buyer referral's share, in basis points.
    pub buyer_referral_bp: u16,
    /// The seller referral's share, in basis points.
    pub seller_referral_bp: u16,
    /// Whether trades must be co-signed by the notary.
    pub requires_notary: bool,
    /// The notary's address.
    pub notary: Pubkey,
}

/// The two schemas of one kind of trade-state record: the length of the
/// legacy record, the length of the current record and the tag that the
/// current record starts with.
#[derive(Clone, Copy, Debug, PartialEq, Eq)]
pub struct TradeStateSchema {
    legacy_len: usize,
    current_len: usize,
    discriminator: [u8; 8],
}

impl TradeStateSchema {
    /// The current record is longer than the legacy one and has room for its
    /// tag.
    #[verifier::type_invariant]
    pub open spec fn wf(self) -> bool {
        self.spec_legacy_len() < self.spec_current_len() && 8 <= self.spec_current_len()
    }

    /// The length of a legacy record.
    pub closed spec fn spec_legacy_len(self) -> usize {
        self.legacy_len
    }

    /// The length of a current record.
    pub closed spec fn spec_current_len(self) -> usize {
        self.current_len
    }

    /// The tag of a current record.
    pub closed spec fn spec_discriminator(self) -> Seq<u8> {
        self.discriminator@
    }

    /// The schema with these lengths and this tag, where the current record
    /// is longer than the legacy one and at least as long as the tag.
    pub fn new(legacy_len: usize, current_len: usize, discriminator: [u8; 8]) -> (schema: Option<TradeStateSchema>)
        ensures
            schema is Some <==> legacy_len < current_len && 8 <= current_len,
            schema matches Some(s) ==> s.spec_legacy_len() == legacy_len && s.spec_current_len() == current_len
                && s.spec_discriminator() == discriminator@,
    {
        if legacy_len < current_len && 8 <= current_len {
            Some(TradeStateSchema { legacy_len, current_len, discriminator })
        } else {
            None
        }
    }

    /// The length of a legacy record.
    #[verifier::when_used_as_spec(spec_legacy_len)]
    pub fn legacy_len(self) -> (len: usize)
        ensures
            len == self.spec_legacy_len(),
            len < self.spec_current_len(),
    {
        proof {
            use_type_invariant(&self);
        }
        self.legacy_len
    }

    /// The length of a current record.
    #[verifier::when_used_as_spec(spec_current_len)]
    pub fn current_len(self) -> (len: usize)
        ensures
            len == self.spec_current_len(),
            8 <= len,
            self.spec_legacy_len() < len,
    {
        proof {
            use_type_invariant(&self);
        }
        self.current_len
    }

    /// The tag is eight bytes long.
    pub proof fn lemma_discriminator_len(self)
        ensures
            self.spec_discriminator().len() == 8,
    {
    }

    /// The tag of a current record.
    pub fn discriminator(self) -> (tag: [u8; 8])
        ensures
            tag@ == self.spec_discriminator(),
    {
        self.discriminator
    }
}

/// The values that one deployment of the program fixes.
#[derive(Clone, Debug, PartialEq, Eq)]
pub struct ProgramConstants {
    /// The program's own address.
    pub program_id: Pubkey,
    /// The schemas of the seller's trade-state record.
    pub seller_trade_state: TradeStateSchema,
    /// The schemas of the buyer's trade-state record.
    pub buyer_trade_state: TradeStateSchema,
    /// How long a bid without an expiry of its own stays open, in seconds.
    pub default_bid_expiry_seconds_after_now: i64,
    /// The maker fee charged where the notary did not sign, in basis points.
    pub default_maker_fee_bp: i16,
    /// The taker fee charged where the notary did not sign, in basis points.
    pub default_taker_fee_bp: u16,
    /// The mints in which payment is accepted.
    pub valid_payment_mints: Vec<Pubkey>,
}

} // verus!
