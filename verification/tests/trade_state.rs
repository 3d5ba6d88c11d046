use anchor_lang::prelude::Pubkey as LedgerKey;
use anchor_lang::solana_program::system_instruction;
use m2::account::AccountInfo;
use m2::errors::ErrorCode;
use m2::instruction::{AccountMeta, Instruction, Invocation};
use m2::keys::Pubkey;
use m2::states::{ProgramConstants, TradeStateSchema};
use m2::trade_state::{
    classify_trade_state, create_or_realloc_buyer_trade_state, create_or_realloc_seller_trade_state,
    create_or_realloc_trade_state, get_default_buyer_state_expiry, TradeStateShape,
    TradeStateUpgrade,
};

const LEGACY: usize = 24;
const CURRENT: usize = 40;
const SELLER_TAG: [u8; 8] = [11, 22, 33, 44, 55, 66, 77, 88];
const BUYER_TAG: [u8; 8] = [8, 7, 6, 5, 4, 3, 2, 1];

fn key(k: &LedgerKey) -> Pubkey {
    Pubkey::new_from_array(k.to_bytes())
}

fn modelled(ix: anchor_lang::solana_program::instruction::Instruction) -> Instruction {
    Instruction {
        program_id: key(&ix.program_id),
        accounts: ix
            .accounts
            .iter()
            .map(|m| AccountMeta { pubkey: key(&m.pubkey), is_signer: m.is_signer, is_writable: m.is_writable })
            .collect(),
        data: ix.data,
    }
}

fn schema() -> TradeStateSchema {
    TradeStateSchema::new(LEGACY, CURRENT, SELLER_TAG).expect("valid schema")
}

fn constants() -> ProgramConstants {
    ProgramConstants {
        program_id: Pubkey::new_from_array([0x50; 32]),
        seller_trade_state: schema(),
        buyer_trade_state: TradeStateSchema::new(LEGACY + 1, CURRENT + 1, BUYER_TAG).expect("valid schema"),
        default_bid_expiry_seconds_after_now: 604_800,
        default_maker_fee_bp: 0,
        default_taker_fee_bp: 0,
        valid_payment_mints: vec![],
    }
}

fn record(lamports: u64, data: Vec<u8>) -> AccountInfo {
    AccountInfo::new(
        Pubkey::new_from_array([0x71; 32]),
        false,
        true,
        lamports,
        data,
        Pubkey::new_from_array([0; 32]),
        false,
        3,
    )
}

fn payer() -> AccountInfo {
    AccountInfo::new(
        Pubkey::new_from_array([0x99; 32]),
        true,
        true,
        1_000_000,
        vec![],
        Pubkey::new_from_array([0; 32]),
        false,
        0,
    )
}

fn fresh(tag: [u8; 8], len: usize) -> Vec<u8> {
    let mut data = vec![0u8; len];
    data[..8].copy_from_slice(&tag);
    data
}

#[test]
fn schema_needs_a_longer_current_record_with_room_for_the_tag() {
    assert!(TradeStateSchema::new(24, 40, SELLER_TAG).is_some());
    assert!(TradeStateSchema::new(0, 8, SELLER_TAG).is_some());
    assert!(TradeStateSchema::new(40, 40, SELLER_TAG).is_none());
    assert!(TradeStateSchema::new(41, 40, SELLER_TAG).is_none());
    assert!(TradeStateSchema::new(3, 7, SELLER_TAG).is_none());
    let s = schema();
    assert_eq!(s.legacy_len(), LEGACY);
    assert_eq!(s.current_len(), CURRENT);
    assert_eq!(s.discriminator(), SELLER_TAG);
}

#[test]
fn shapes_are_told_apart_by_length_first_and_tag_second() {
    let s = schema();
    assert_eq!(classify_trade_state(s, &vec![]), TradeStateShape::Absent);
    assert_eq!(classify_trade_state(s, &vec![7u8; LEGACY]), TradeStateShape::Legacy);
    assert_eq!(classify_trade_state(s, &fresh(SELLER_TAG, LEGACY)), TradeStateShape::Legacy);
    assert_eq!(classify_trade_state(s, &fresh(SELLER_TAG, CURRENT)), TradeStateShape::Current);
    assert_eq!(classify_trade_state(s, &fresh(SELLER_TAG, 8)), TradeStateShape::Current);
    assert_eq!(classify_trade_state(s, &fresh(BUYER_TAG, CURRENT)), TradeStateShape::Unrecognized);
    assert_eq!(classify_trade_state(s, &vec![0u8; CURRENT]), TradeStateShape::Unrecognized);
    assert_eq!(classify_trade_state(s, &SELLER_TAG[..7].to_vec()), TradeStateShape::Unrecognized);
    let mut last_byte_off = fresh(SELLER_TAG, CURRENT);
    last_byte_off[7] ^= 1;
    assert_eq!(classify_trade_state(s, &last_byte_off), TradeStateShape::Unrecognized);
}

#[test]
fn absent_record_is_created_funded_and_tagged() {
    let c = constants();
    let mut sts = record(0, vec![]);
    let r = create_or_realloc_seller_trade_state(&mut sts, &payer(), &c, 1_200);
    let expected = Invocation {
        instruction: modelled(system_instruction::create_account(
            &LedgerKey::new_from_array([0x99; 32]),
            &LedgerKey::new_from_array([0x71; 32]),
            1_200,
            CURRENT as u64,
            &LedgerKey::new_from_array([0x50; 32]),
        )),
        accounts: vec![Pubkey::new_from_array([0x99; 32]), Pubkey::new_from_array([0x71; 32])],
        signed: true,
    };
    assert_eq!(r, Ok(TradeStateUpgrade::Created { invocation: expected }));
    assert_eq!(sts.data, fresh(SELLER_TAG, CURRENT));
    assert_eq!(sts.lamports, 1_200);
    assert_eq!(sts.owner, c.program_id);
    assert_eq!(sts.key, Pubkey::new_from_array([0x71; 32]));
    assert_eq!(sts.rent_epoch, 3);
}

#[test]
fn creation_encodes_funding_size_and_owner() {
    let c = constants();
    let mut sts = record(200, vec![]);
    let r = create_or_realloc_seller_trade_state(&mut sts, &payer(), &c, 1_200);
    match r {
        Ok(TradeStateUpgrade::Created { invocation }) => {
            let mut data = vec![0u8, 0, 0, 0];
            data.extend_from_slice(&1_000u64.to_le_bytes());
            data.extend_from_slice(&(CURRENT as u64).to_le_bytes());
            data.extend_from_slice(&[0x50; 32]);
            assert_eq!(invocation.instruction.data, data);
            assert_eq!(invocation.instruction.program_id, Pubkey::new_from_array([0; 32]));
            assert_eq!(
                invocation.instruction.accounts,
                vec![
                    AccountMeta { pubkey: Pubkey::new_from_array([0x99; 32]), is_signer: true, is_writable: true },
                    AccountMeta { pubkey: Pubkey::new_from_array([0x71; 32]), is_signer: true, is_writable: true },
                ]
            );
        }
        other => panic!("expected a creation, got {:?}", other),
    }
    assert_eq!(sts.lamports, 1_200);
}

#[test]
fn legacy_record_short_of_rent_is_migrated_and_topped_up() {
    let c = constants();
    let mut sts = record(500, vec![0xEE; LEGACY]);
    let r = create_or_realloc_seller_trade_state(&mut sts, &payer(), &c, 1_200);
    let top_up = Invocation {
        instruction: modelled(system_instruction::transfer(
            &LedgerKey::new_from_array([0x99; 32]),
            &LedgerKey::new_from_array([0x71; 32]),
            700,
        )),
        accounts: vec![Pubkey::new_from_array([0x99; 32]), Pubkey::new_from_array([0x71; 32])],
        signed: false,
    };
    assert_eq!(r, Ok(TradeStateUpgrade::Migrated { top_up: Some(top_up) }));
    assert_eq!(sts.data.len(), CURRENT);
    assert_eq!(sts.data, fresh(SELLER_TAG, CURRENT));
    assert_eq!(sts.lamports, 1_200);
    assert_eq!(sts.owner, Pubkey::new_from_array([0; 32]));
}

#[test]
fn legacy_record_with_its_rent_is_migrated_without_top_up() {
    let c = constants();
    for lamports in [1_200u64, 5_000, u64::MAX] {
        let mut sts = record(lamports, fresh(BUYER_TAG, LEGACY));
        let r = create_or_realloc_seller_trade_state(&mut sts, &payer(), &c, 1_200);
        assert_eq!(r, Ok(TradeStateUpgrade::Migrated { top_up: None }));
        assert_eq!(sts.data, fresh(SELLER_TAG, CURRENT));
        assert_eq!(sts.lamports, lamports);
    }
}

#[test]
fn current_record_is_left_alone_twice() {
    let c = constants();
    let mut data = fresh(SELLER_TAG, CURRENT);
    data[20] = 0xAB;
    let before = record(3, data);
    let mut sts = before.clone();
    assert_eq!(
        create_or_realloc_seller_trade_state(&mut sts, &payer(), &c, 1_200),
        Ok(TradeStateUpgrade::Unchanged)
    );
    assert_eq!(sts, before);
    assert_eq!(
        create_or_realloc_seller_trade_state(&mut sts, &payer(), &c, 9_999),
        Ok(TradeStateUpgrade::Unchanged)
    );
    assert_eq!(sts, before);
}

#[test]
fn upgrade_is_idempotent_from_every_start() {
    let c = constants();
    for start in [record(0, vec![]), record(10, vec![1; LEGACY]), record(10, fresh(SELLER_TAG, CURRENT))] {
        let mut sts = start;
        create_or_realloc_seller_trade_state(&mut sts, &payer(), &c, 1_200).expect("recognized");
        let once = sts.clone();
        assert_eq!(
            create_or_realloc_seller_trade_state(&mut sts, &payer(), &c, 1_200),
            Ok(TradeStateUpgrade::Unchanged)
        );
        assert_eq!(sts, once);
    }
}

#[test]
fn unrecognized_record_is_refused_and_left_alone() {
    let c = constants();
    for data in [vec![1u8], vec![0u8; CURRENT], fresh(BUYER_TAG, CURRENT), vec![9u8; LEGACY + 1], SELLER_TAG[..7].to_vec()] {
        let before = record(77, data);
        let mut sts = before.clone();
        assert_eq!(
            create_or_realloc_seller_trade_state(&mut sts, &payer(), &c, 1_200),
            Err(ErrorCode::InvalidAccountState)
        );
        assert_eq!(sts, before);
    }
}

#[test]
fn buyer_and_seller_records_use_their_own_schema() {
    let c = constants();
    let mut bts = record(0, vec![0; LEGACY + 1]);
    assert_eq!(
        create_or_realloc_buyer_trade_state(&mut bts, &payer(), &c, 0),
        Ok(TradeStateUpgrade::Migrated { top_up: None })
    );
    assert_eq!(bts.data, fresh(BUYER_TAG, CURRENT + 1));

    let mut seller_as_buyer = record(0, fresh(SELLER_TAG, CURRENT));
    assert_eq!(
        create_or_realloc_buyer_trade_state(&mut seller_as_buyer, &payer(), &c, 0),
        Err(ErrorCode::InvalidAccountState)
    );
    let mut buyer_len_as_seller = record(0, vec![0; LEGACY + 1]);
    assert_eq!(
        create_or_realloc_seller_trade_state(&mut buyer_len_as_seller, &payer(), &c, 0),
        Err(ErrorCode::InvalidAccountState)
    );
    let mut created = record(0, vec![]);
    match create_or_realloc_buyer_trade_state(&mut created, &payer(), &c, 10) {
        Ok(TradeStateUpgrade::Created { .. }) => {}
        other => panic!("expected a creation, got {:?}", other),
    }
    assert_eq!(created.data, fresh(BUYER_TAG, CURRENT + 1));
}

#[test]
fn upgrade_works_under_any_schema() {
    let s = TradeStateSchema::new(0, 8, BUYER_TAG).expect("valid schema");
    let mut account = record(1, vec![]);
    let program = Pubkey::new_from_array([4; 32]);
    match create_or_realloc_trade_state(s, &program, &mut account, &payer(), 2) {
        Ok(TradeStateUpgrade::Created { .. }) => {}
        other => panic!("expected a creation, got {:?}", other),
    }
    assert_eq!(account.data, BUYER_TAG.to_vec());
    assert_eq!(account.lamports, 2);
    assert_eq!(account.owner, program);
}

#[test]
fn default_expiry_applies_only_to_bids_without_one() {
    let c = constants();
    assert_eq!(get_default_buyer_state_expiry(0, 1_700_000_000, &c), 1_700_604_800);
    assert_eq!(get_default_buyer_state_expiry(1_700_000_123, 1_700_000_000, &c), 1_700_000_123);
    assert_eq!(get_default_buyer_state_expiry(-1, 1_700_000_000, &c), -1);
    assert_eq!(get_default_buyer_state_expiry(5, i64::MAX, &c), 5);
}
