use anchor_lang::prelude::Pubkey as LedgerKey;
use anchor_lang::solana_program::system_instruction;
use m2::account::AccountInfo;
use m2::errors::ErrorCode;
use m2::fees::{get_actual_maker_taker_fee_bp, pay_auction_house_fees, split_fees, FeeSplit};
use m2::instruction::{AccountMeta, Instruction};
use m2::keys::Pubkey;
use m2::states::{AuctionHouse, ProgramConstants, TradeStateSchema};

fn key(k: &LedgerKey) -> Pubkey {
    Pubkey::new_from_array(k.to_bytes())
}

fn account(tag: u8, is_signer: bool) -> AccountInfo {
    let k = Pubkey::new_from_array([tag; 32]);
    AccountInfo::new(k, is_signer, true, 0, vec![], Pubkey::new_from_array([0; 32]), false, 0)
}

fn house(seller_fee_basis_points: u16, buyer_referral_bp: u16, seller_referral_bp: u16) -> AuctionHouse {
    AuctionHouse {
        seller_fee_basis_points,
        buyer_referral_bp,
        seller_referral_bp,
        requires_notary: false,
        notary: Pubkey::new_from_array([9; 32]),
    }
}

fn modelled(ix: anchor_lang::solana_program::instruction::Instruction) -> Instruction {
    Instruction {
        program_id: key(&ix.program_id),
        accounts: ix
            .accounts
            .iter()
            .map(|m| AccountMeta { pubkey: key(&m.pubkey), is_signer: m.is_signer, is_writable: m.is_writable })
            .collect(),
        data: ix.data,
    }
}

fn ledger_transfer(from: u8, to: u8, lamports: u64) -> Instruction {
    modelled(system_instruction::transfer(
        &LedgerKey::new_from_array([from; 32]),
        &LedgerKey::new_from_array([to; 32]),
        lamports,
    ))
}

#[test]
fn split_of_a_sale_with_a_buyer_referral() {
    assert_eq!(
        split_fees(1_000_000, 200, 50, 0),
        Ok(FeeSplit { buyer_referral_fee: 5000, seller_referral_fee: 0, treasury_fee: 15000 })
    );
}

#[test]
fn split_rounds_each_share_down() {
    // 9_999 * 30 / 10_000 = 29.997, 9_999 * 20 / 10_000 = 19.998, 9_999 * 100 / 10_000 = 99.99
    assert_eq!(
        split_fees(9_999, 100, 30, 20),
        Ok(FeeSplit { buyer_referral_fee: 29, seller_referral_fee: 19, treasury_fee: 99 - 29 - 19 })
    );
    assert_eq!(
        split_fees(1, 10_000, 5_000, 5_000),
        Ok(FeeSplit { buyer_referral_fee: 0, seller_referral_fee: 0, treasury_fee: 1 })
    );
}

#[test]
fn split_conserves_the_gross_share() {
    for &(size, t, b, s) in &[
        (0u64, 0u16, 0u16, 0u16),
        (1, 1, 0, 0),
        (123_456_789, 250, 100, 150),
        (u64::MAX, 10_000, 2_500, 7_500),
        (u64::MAX, 10_000, 0, 0),
        (7_777_777_777, 999, 333, 666),
    ] {
        let split = split_fees(size, t, b, s).expect("rates are covered");
        let share = |bp: u16| (size as u128 * bp as u128 / 10_000) as u64;
        assert_eq!(split.buyer_referral_fee, share(b));
        assert_eq!(split.seller_referral_fee, share(s));
        assert_eq!(
            split.treasury_fee as u128 + split.buyer_referral_fee as u128 + split.seller_referral_fee as u128,
            share(t) as u128
        );
    }
}

#[test]
fn split_fails_when_referrals_exceed_the_gross_share() {
    assert_eq!(split_fees(1_000_000, 50, 200, 0), Err(ErrorCode::NumericalOverflow));
    assert_eq!(split_fees(1_000_000, 50, 0, 200), Err(ErrorCode::NumericalOverflow));
    assert_eq!(split_fees(1_000_000, 100, 60, 60), Err(ErrorCode::NumericalOverflow));
    // Rounding can hide a small excess of the rates.
    assert_eq!(
        split_fees(100, 1, 1, 1),
        Ok(FeeSplit { buyer_referral_fee: 0, seller_referral_fee: 0, treasury_fee: 0 })
    );
}

#[test]
fn split_fails_when_a_share_leaves_64_bits() {
    assert_eq!(split_fees(u64::MAX, 10_001, 0, 0), Err(ErrorCode::NumericalOverflow));
    assert_eq!(split_fees(u64::MAX, 65_535, 65_535, 0), Err(ErrorCode::NumericalOverflow));
    assert_eq!(split_fees(u64::MAX, 65_535, 0, 20_000), Err(ErrorCode::NumericalOverflow));
    // The referral shares fit, the treasury's net share does not.
    assert_eq!(split_fees(u64::MAX, 30_000, 5_000, 5_000), Err(ErrorCode::NumericalOverflow));
    assert_eq!(split_fees(u64::MAX, 20_000, 5_000, 5_000), Err(ErrorCode::NumericalOverflow));
    // The gross share alone leaves 64 bits, the three fees do not.
    let gross = u64::MAX as u128 * 19_999 / 10_000;
    assert!(gross > u64::MAX as u128);
    assert_eq!(
        split_fees(u64::MAX, 19_999, 5_000, 5_000),
        Ok(FeeSplit {
            buyer_referral_fee: u64::MAX / 2,
            seller_referral_fee: u64::MAX / 2,
            treasury_fee: (gross - 2 * (u64::MAX / 2) as u128) as u64,
        })
    );
}

#[test]
fn payment_lists_the_transfers_in_order() {
    let treasury = account(1, false);
    let escrow = account(2, false);
    let buyer_referral = account(3, false);
    let seller_referral = account(4, false);
    let system_program = account(0, false);
    let payment = pay_auction_house_fees(
        &house(200, 50, 25),
        &treasury,
        &escrow,
        &buyer_referral,
        &seller_referral,
        &system_program,
        1_000_000,
    )
    .expect("rates are covered");
    assert_eq!(payment.treasury_fee, 20_000 - 5_000 - 2_500);
    assert_eq!(payment.invocations.len(), 3);
    let payees = [(3u8, 5_000u64), (4, 2_500), (1, 12_500)];
    for (invocation, (payee, lamports)) in payment.invocations.iter().zip(payees.iter()) {
        assert_eq!(invocation.instruction, ledger_transfer(2, *payee, *lamports));
        assert_eq!(
            invocation.accounts,
            vec![escrow.key, Pubkey::new_from_array([*payee; 32]), system_program.key]
        );
        assert!(invocation.signed);
    }
}

#[test]
fn payment_transfer_moves_the_fee_out_of_the_escrow() {
    let payment = pay_auction_house_fees(
        &house(200, 0, 0),
        &account(1, false),
        &account(2, false),
        &account(3, false),
        &account(4, false),
        &account(0, false),
        1_000_000,
    )
    .expect("rates are covered");
    assert_eq!(payment.invocations.len(), 1);
    let ix = &payment.invocations[0].instruction;
    assert_eq!(ix.program_id, Pubkey::new_from_array([0; 32]));
    assert_eq!(
        ix.accounts,
        vec![
            AccountMeta { pubkey: Pubkey::new_from_array([2; 32]), is_signer: true, is_writable: true },
            AccountMeta { pubkey: Pubkey::new_from_array([1; 32]), is_signer: false, is_writable: true },
        ]
    );
    let mut data = vec![2u8, 0, 0, 0];
    data.extend_from_slice(&20_000u64.to_le_bytes());
    assert_eq!(ix.data, data);
}

#[test]
fn payment_skips_a_referral_without_a_rate() {
    let treasury = account(1, false);
    let escrow = account(2, false);
    let buyer_referral = account(3, false);
    let seller_referral = account(4, false);
    let system_program = account(0, false);
    let only_buyer = pay_auction_house_fees(
        &house(200, 50, 0),
        &treasury,
        &escrow,
        &buyer_referral,
        &seller_referral,
        &system_program,
        1_000_000,
    )
    .expect("rates are covered");
    assert_eq!(only_buyer.treasury_fee, 15_000);
    assert_eq!(only_buyer.invocations.len(), 2);
    assert_eq!(only_buyer.invocations[0].instruction, ledger_transfer(2, 3, 5_000));
    assert_eq!(only_buyer.invocations[1].instruction, ledger_transfer(2, 1, 15_000));

    let only_seller = pay_auction_house_fees(
        &house(200, 0, 50),
        &treasury,
        &escrow,
        &buyer_referral,
        &seller_referral,
        &system_program,
        1_000_000,
    )
    .expect("rates are covered");
    assert_eq!(only_seller.invocations.len(), 2);
    assert_eq!(only_seller.invocations[0].instruction, ledger_transfer(2, 4, 5_000));
    assert_eq!(only_seller.invocations[1].instruction, ledger_transfer(2, 1, 15_000));

    let none = pay_auction_house_fees(
        &house(0, 0, 0),
        &treasury,
        &escrow,
        &buyer_referral,
        &seller_referral,
        &system_program,
        1_000_000,
    )
    .expect("rates are covered");
    assert_eq!(none.treasury_fee, 0);
    assert_eq!(none.invocations.len(), 1);
    assert_eq!(none.invocations[0].instruction, ledger_transfer(2, 1, 0));
}

#[test]
fn payment_fails_without_transfers_on_overflow() {
    let r = pay_auction_house_fees(
        &house(50, 200, 0),
        &account(1, false),
        &account(2, false),
        &account(3, false),
        &account(4, false),
        &account(0, false),
        1_000_000,
    );
    assert_eq!(r, Err(ErrorCode::NumericalOverflow));
    let r = pay_auction_house_fees(
        &house(65_535, 0, 0),
        &account(1, false),
        &account(2, false),
        &account(3, false),
        &account(4, false),
        &account(0, false),
        u64::MAX,
    );
    assert_eq!(r, Err(ErrorCode::NumericalOverflow));
}

fn constants() -> ProgramConstants {
    ProgramConstants {
        program_id: Pubkey::new_from_array([5; 32]),
        seller_trade_state: TradeStateSchema::new(10, 20, [1; 8]).expect("valid schema"),
        buyer_trade_state: TradeStateSchema::new(10, 20, [2; 8]).expect("valid schema"),
        default_bid_expiry_seconds_after_now: 60,
        default_maker_fee_bp: -25,
        default_taker_fee_bp: 250,
        valid_payment_mints: vec![],
    }
}

#[test]
fn maker_taker_fees_follow_the_notary_signature() {
    let c = constants();
    assert_eq!(get_actual_maker_taker_fee_bp(&account(1, true), 10, 20, &c), (10, 20));
    assert_eq!(get_actual_maker_taker_fee_bp(&account(1, false), 10, 20, &c), (-25, 250));
}
