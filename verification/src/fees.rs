//! The split of a sale's proceeds between the referral parties and the
//! treasury.

use vstd::prelude::*;
use crate::account::AccountInfo;
use crate::errors::ErrorCode;
use crate::instruction::{
    invocation_views, transfer, transfer_instruction, Invocation, InvocationView,
};
use crate::keys::Pubkey;
use crate::states::{AuctionHouse, ProgramConstants};

verus! {

/// The share of `size` that `bp` basis points stand for, rounded down.
pub open spec fn fee_share(size: u64, bp: u16) -> int {
    (size as int * bp as int) / 10000
}

/// The three amounts paid out of one sale.
#[derive(Clone, Copy, Debug, PartialEq, Eq, Structural)]
pub struct FeeSplit {
    pub buyer_referral_fee: u64,
    pub seller_referral_fee: u64,
    pub treasury_fee: u64,
}

/// Whether the three shares of a sale fit the 64-bit range and the referral
/// shares do not exceed the treasury's gross share.
pub open spec fn fees_payable(size: u64, seller_fee_bp: u16, buyer_referral_bp: u16, seller_referral_bp: u16) -> bool {
    &&& fee_share(size, buyer_referral_bp) <= u64::MAX
    &&& fee_share(size, seller_referral_bp) <= u64::MAX
    &&& fee_share(size, buyer_referral_bp) + fee_share(size, seller_referral_bp) <= fee_share(size, seller_fee_bp)
    &&& fee_share(size, seller_fee_bp) - fee_share(size, buyer_referral_bp) - fee_share(size, seller_referral_bp) <= u64::MAX
}

/// The split of a sale of `size`: each referral party receives its share,
/// and the treasury its gross share less the two referral shares.
pub open spec fn fee_split(size: u64, seller_fee_bp: u16, buyer_referral_bp: u16, seller_referral_bp: u16) -> FeeSplit {
    FeeSplit {
        buyer_referral_fee: fee_share(size, buyer_referral_bp) as u64,
        seller_referral_fee: fee_share(size, seller_referral_bp) as u64,
        treasury_fee: (fee_share(size, seller_fee_bp) - fee_share(size, buyer_referral_bp) - fee_share(size, seller_referral_bp)) as u64,
    }
}

proof fn lemma_product_fits(size: u64, bp: u16)
    ensures
        0 <= size as int * bp as int <= 0xffff * 0xffff_ffff_ffff_ffff,
        size as int * bp as int == bp as int * size as int,
{
    assert(0 <= size as int * bp as int <= 0xffff * 0xffff_ffff_ffff_ffff) by (nonlinear_arith)
        requires
            0 <= size as int <= 0xffff_ffff_ffff_ffff,
            0 <= bp as int <= 0xffff,
    ;
    assert(size as int * bp as int == bp as int * size as int) by (nonlinear_arith);
}

/// The share of `size` for `bp` basis points, computed in 128 bits.
fn share(size: u64, bp: u16) -> (r: u128)
    ensures
        r == fee_share(size, bp),
{
    proof {
        lemma_product_fits(size, bp);
    }
    let product: u128 = (bp as u128) * (size as u128);
    product / 10000
}

/// Computes the split of a sale of `size` among the buyer referral, the
/// seller referral and the treasury. Fails with `NumericalOverflow` when a
/// share leaves the 64-bit range or the referral shares together exceed the
/// treasury's gross share.
pub fn split_fees(size: u64, seller_fee_bp: u16, buyer_referral_bp: u16, seller_referral_bp: u16) -> (r: Result<FeeSplit, ErrorCode>)
    ensures
        fees_payable(size, seller_fee_bp, buyer_referral_bp, seller_referral_bp) ==> r == Ok::<FeeSplit, ErrorCode>(
            fee_split(size, seller_fee_bp, buyer_referral_bp, seller_referral_bp),
        ),
        !fees_payable(size, seller_fee_bp, buyer_referral_bp, seller_referral_bp) ==> r == Err::<FeeSplit, ErrorCode>(
            ErrorCode::NumericalOverflow,
        ),
{
    let buyer: u128 = share(size, buyer_referral_bp);
    if buyer > u64::MAX as u128 {
        return Err(ErrorCode::NumericalOverflow);
    }
    let seller: u128 = share(size, seller_referral_bp);
    if seller > u64::MAX as u128 {
        return Err(ErrorCode::NumericalOverflow);
    }
    let gross: u128 = share(size, seller_fee_bp);
    let treasury: u128 = match gross.checked_sub(buyer + seller) {
        Some(rest) => rest,
        None => {
            return Err(ErrorCode::NumericalOverflow);
        },
    };
    if treasury > u64::MAX as u128 {
        return Err(ErrorCode::NumericalOverflow);
    }
    Ok(
        FeeSplit {
            buyer_referral_fee: buyer as u64,
            seller_referral_fee: seller as u64,
            treasury_fee: treasury as u64,
        },
    )
}

/// What the fee engine asks of the ledger for one sale, and the treasury's
/// net share.
#[derive(Clone, Debug, PartialEq, Eq)]
pub struct FeePayment {
    /// The treasury's share of the sale.
    pub treasury_fee: u64,
    /// The transfers to dispatch, in order.
    pub invocations: Vec<Invocation>,
}

/// The signed transfer of `lamports` out of the escrow to one payee.
pub open spec fn fee_transfer(escrow: Pubkey, payee: Pubkey, system_program: Pubkey, lamports: u64) -> InvocationView {
    InvocationView {
        instruction: transfer_instruction(escrow@, payee@, lamports),
        accounts: seq![escrow, payee, system_program],
        signed: true,
    }
}

/// The transfers that pay out a split: to the buyer referral where it has a
/// rate, then to the seller referral where it has a rate, then to the
/// treasury.
pub open spec fn fee_transfers(
    auction_house: AuctionHouse,
    treasury: Pubkey,
    escrow: Pubkey,
    buyer_referral: Pubkey,
    seller_referral: Pubkey,
    system_program: Pubkey,
    split: FeeSplit,
) -> Seq<InvocationView> {
    let to_buyer = if auction_house.buyer_referral_bp > 0 {
        seq![fee_transfer(escrow, buyer_referral, system_program, split.buyer_referral_fee)]
    } else {
        Seq::<InvocationView>::empty()
    };
    let to_seller = if auction_house.seller_referral_bp > 0 {
        seq![fee_transfer(escrow, seller_referral, system_program, split.seller_referral_fee)]
    } else {
        Seq::<InvocationView>::empty()
    };
    to_buyer + to_seller + seq![fee_transfer(escrow, treasury, system_program, split.treasury_fee)]
}

/// One signed transfer out of the escrow.
fn pay_from_escrow(escrow: &AccountInfo, payee: &AccountInfo, system_program: &AccountInfo, lamports: u64) -> (invocation: Invocation)
    ensures
        invocation@ == fee_transfer(escrow.key, payee.key, system_program.key, lamports),
{
    let instruction = transfer(&escrow.key, &payee.key, lamports);
    let mut accounts: Vec<Pubkey> = Vec::new();
    accounts.push(escrow.key);
    accounts.push(payee.key);
    accounts.push(system_program.key);
    assert(accounts@ =~= seq![escrow.key, payee.key, system_program.key]);
    Invocation { instruction, accounts, signed: true }
}

/// Splits a sale of `size` held in the escrow and lists the transfers that
/// pay it out, each signed with the caller's derivation seeds. Gives the
/// treasury's net share. Where the split fails, nothing is to be transferred.
pub fn pay_auction_house_fees(
    auction_house: &AuctionHouse,
    auction_house_treasury: &AccountInfo,
    escrow_payment_account: &AccountInfo,
    buyer_referral: &AccountInfo,
    seller_referral: &AccountInfo,
    system_program: &AccountInfo,
    size: u64,
) -> (r: Result<FeePayment, ErrorCode>)
    ensures
        fees_payable(
            size,
            auction_house.seller_fee_basis_points,
            auction_house.buyer_referral_bp,
            auction_house.seller_referral_bp,
        ) ==> r is Ok && ({
            let split = fee_split(
                size,
                auction_house.seller_fee_basis_points,
                auction_house.buyer_referral_bp,
                auction_house.seller_referral_bp,
            );
            &&& r->Ok_0.treasury_fee == split.treasury_fee
            &&& invocation_views(r->Ok_0.invocations@) == fee_transfers(
                *auction_house,
                auction_house_treasury.key,
                escrow_payment_account.key,
                buyer_referral.key,
                seller_referral.key,
                system_program.key,
                split,
            )
        }),
        !fees_payable(
            size,
            auction_house.seller_fee_basis_points,
            auction_house.buyer_referral_bp,
            auction_house.seller_referral_bp,
        ) ==> r == Err::<FeePayment, ErrorCode>(ErrorCode::NumericalOverflow),
{
    let split = match split_fees(
        size,
        auction_house.seller_fee_basis_points,
        auction_house.buyer_referral_bp,
        auction_house.seller_referral_bp,
    ) {
        Ok(split) => split,
        Err(e) => {
            return Err(e);
        },
    };
    let mut invocations: Vec<Invocation> = Vec::new();
    if auction_house.buyer_referral_bp > 0 {
        invocations.push(
            pay_from_escrow(escrow_payment_account, buyer_referral, system_program, split.buyer_referral_fee),
        );
    }
    if auction_house.seller_referral_bp > 0 {
        invocations.push(
            pay_from_escrow(escrow_payment_account, seller_referral, system_program, split.seller_referral_fee),
        );
    }
    invocations.push(
        pay_from_escrow(escrow_payment_account, auction_house_treasury, system_program, split.treasury_fee),
    );
    assert(invocation_views(invocations@) =~= fee_transfers(
        *auction_house,
        auction_house_treasury.key,
        escrow_payment_account.key,
        buyer_referral.key,
        seller_referral.key,
        system_program.key,
        split,
    ));
    Ok(FeePayment { treasury_fee: split.treasury_fee, invocations })
}

/// Shares grow with the rate: a rate at least the sum of two others yields a
/// share at least the sum of theirs.
pub proof fn lemma_fee_share_superadditive(size: u64, a: u16, b: u16, c: u16)
    requires
        c >= a + b,
    ensures
        fee_share(size, a) + fee_share(size, b) <= fee_share(size, c),
        0 <= fee_share(size, a),
        0 <= fee_share(size, b),
{
    let x = size as int * a as int;
    let y = size as int * b as int;
    let z = size as int * c as int;
    assert(0 <= x && 0 <= y && x + y <= z) by (nonlinear_arith)
        requires
            x == size as int * a as int,
            y == size as int * b as int,
            z == size as int * c as int,
            0 <= size as int,
            0 <= a as int,
            0 <= b as int,
            c as int >= a as int + b as int,
    ;
    assert(x / 10000 + y / 10000 <= (x + y) / 10000);
    assert((x + y) / 10000 <= z / 10000);
}

/// Conservation of a sale's fees: where the treasury's rate covers both
/// referral rates, the referral shares never exceed the treasury's gross
/// share; and where each of the three fees fits 64 bits, the split succeeds,
/// each referral fee is its rate's share of the sale, and the three fees add
/// up to the treasury's gross share.
pub proof fn lemma_fee_split_conserves(size: u64, seller_fee_bp: u16, buyer_referral_bp: u16, seller_referral_bp: u16)
    requires
        seller_fee_bp >= buyer_referral_bp + seller_referral_bp,
    ensures
        fee_share(size, buyer_referral_bp) + fee_share(size, seller_referral_bp) <= fee_share(size, seller_fee_bp),
        fees_payable(size, seller_fee_bp, buyer_referral_bp, seller_referral_bp) <==> {
            &&& fee_share(size, buyer_referral_bp) <= u64::MAX
            &&& fee_share(size, seller_referral_bp) <= u64::MAX
            &&& fee_share(size, seller_fee_bp) - fee_share(size, buyer_referral_bp) - fee_share(
                size,
                seller_referral_bp,
            ) <= u64::MAX
        },
        fees_payable(size, seller_fee_bp, buyer_referral_bp, seller_referral_bp) ==> ({
            let split = fee_split(size, seller_fee_bp, buyer_referral_bp, seller_referral_bp);
            &&& split.buyer_referral_fee == fee_share(size, buyer_referral_bp)
            &&& split.seller_referral_fee == fee_share(size, seller_referral_bp)
            &&& split.treasury_fee + split.buyer_referral_fee + split.seller_referral_fee == fee_share(
                size,
                seller_fee_bp,
            )
        }),
{
    lemma_fee_share_superadditive(size, buyer_referral_bp, seller_referral_bp, seller_fee_bp);
}

/// Rates that are true basis points, at most the whole, never leave the
/// 64-bit range: the split then succeeds whenever the treasury's rate covers
/// both referral rates.
pub proof fn lemma_fee_split_of_true_rates(size: u64, seller_fee_bp: u16, buyer_referral_bp: u16, seller_referral_bp: u16)
    requires
        seller_fee_bp <= 10000,
        seller_fee_bp >= buyer_referral_bp + seller_referral_bp,
    ensures
        fees_payable(size, seller_fee_bp, buyer_referral_bp, seller_referral_bp),
{
    let z = size as int * seller_fee_bp as int;
    assert(z <= size as int * 10000) by (nonlinear_arith)
        requires
            z == size as int * seller_fee_bp as int,
            0 <= size as int,
            seller_fee_bp as int <= 10000,
    ;
    lemma_fee_split_conserves(size, seller_fee_bp, buyer_referral_bp, seller_referral_bp);
}

/// The maker and taker fees that apply to a trade: the requested ones where
/// the notary signed, the program's defaults where it did not.
pub fn get_actual_maker_taker_fee_bp(
    notary: &AccountInfo,
    maker_fee_bp: i16,
    taker_fee_bp: u16,
    constants: &ProgramConstants,
) -> (fees: (i16, u16))
    ensures
        notary.is_signer ==> fees == (maker_fee_bp, taker_fee_bp),
        !notary.is_signer ==> fees == (constants.default_maker_fee_bp, constants.default_taker_fee_bp),
{
    if notary.is_signer {
        (maker_fee_bp, taker_fee_bp)
    } else {
        (constants.default_maker_fee_bp, constants.default_taker_fee_bp)
    }
}

} // verus!
