use anchor_lang::prelude::Pubkey as LedgerKey;
use anchor_lang::solana_program::system_instruction;
use m2::account::{index_ra, split_payer_from_remaining_accounts, AccountInfo};
use m2::errors::ErrorCode;
use m2::escrow::{close_account_anchor, create_or_allocate_account_raw, make_ata, try_close_buyer_escrow};
use m2::instruction::{AccountMeta, Instruction, Invocation};
use m2::keys::Pubkey;

const MIN_RENT: u64 = 890_880;

fn key(k: &LedgerKey) -> Pubkey {
    Pubkey::new_from_array(k.to_bytes())
}

fn modelled(ix: anchor_lang::solana_program::instruction::Instruction) -> Instruction {
    Instruction {
        program_id: key(&ix.program_id),
        accounts: ix
            .accounts
            .iter()
            .map(|m| AccountMeta { pubkey: key(&m.pubkey), is_signer: m.is_signer, is_writable: m.is_writable })
            .collect(),
        data: ix.data,
    }
}

fn account(tag: u8, lamports: u64, data: Vec<u8>) -> AccountInfo {
    AccountInfo::new(
        Pubkey::new_from_array([tag; 32]),
        false,
        true,
        lamports,
        data,
        Pubkey::new_from_array([0xAA; 32]),
        false,
        7,
    )
}

fn refund(lamports: u64) -> Invocation {
    Invocation {
        instruction: modelled(system_instruction::transfer(
            &LedgerKey::new_from_array([1; 32]),
            &LedgerKey::new_from_array([2; 32]),
            lamports,
        )),
        accounts: vec![
            Pubkey::new_from_array([1; 32]),
            Pubkey::new_from_array([2; 32]),
            Pubkey::new_from_array([0; 32]),
        ],
        signed: true,
    }
}

fn reclaim(lamports: u64) -> Option<Invocation> {
    try_close_buyer_escrow(
        &account(1, lamports, vec![]),
        &account(2, 5, vec![]),
        &account(0, 1, vec![]),
        MIN_RENT,
    )
}

#[test]
fn empty_escrow_is_left_alone() {
    assert_eq!(reclaim(0), None);
}

#[test]
fn escrow_of_one_lamport_is_returned_to_the_buyer() {
    assert_eq!(reclaim(1), Some(refund(1)));
}

#[test]
fn escrow_at_the_rent_minimum_is_returned_in_full() {
    assert_eq!(reclaim(MIN_RENT), Some(refund(MIN_RENT)));
    assert_eq!(reclaim(MIN_RENT - 1), Some(refund(MIN_RENT - 1)));
}

#[test]
fn escrow_above_the_rent_minimum_is_left_alone() {
    assert_eq!(reclaim(MIN_RENT + 1), None);
    assert_eq!(reclaim(u64::MAX), None);
}

#[test]
fn escrow_with_a_zero_rent_minimum_is_never_dust() {
    for lamports in [0u64, 1, 2, u64::MAX] {
        assert_eq!(
            try_close_buyer_escrow(
                &account(1, lamports, vec![]),
                &account(2, 5, vec![]),
                &account(0, 1, vec![]),
                0
            ),
            None
        );
    }
}

#[test]
fn closing_moves_the_balance_and_zeroes_the_tag() {
    let mut info = account(1, 300, vec![9, 8, 7, 6, 5, 4, 3, 2, 1, 0xFE]);
    let mut dest = account(2, 50, vec![1, 2, 3]);
    assert_eq!(close_account_anchor(&mut info, &mut dest), Ok(()));
    assert_eq!(info, account(1, 0, vec![0, 0, 0, 0, 0, 0, 0, 0, 1, 0xFE]));
    assert_eq!(dest, account(2, 350, vec![1, 2, 3]));
}

#[test]
fn closing_an_account_of_exactly_eight_bytes() {
    let mut info = account(1, 0, vec![0xFF; 8]);
    let mut dest = account(2, u64::MAX, vec![]);
    assert_eq!(close_account_anchor(&mut info, &mut dest), Ok(()));
    assert_eq!(info.data, vec![0; 8]);
    assert_eq!(info.lamports, 0);
    assert_eq!(dest.lamports, u64::MAX);
}

#[test]
fn closing_fails_on_overflow_and_changes_nothing() {
    let before_info = account(1, 2, vec![0xFF; 12]);
    let before_dest = account(2, u64::MAX - 1, vec![]);
    let mut info = before_info.clone();
    let mut dest = before_dest.clone();
    assert_eq!(close_account_anchor(&mut info, &mut dest), Err(ErrorCode::NumericalOverflow));
    assert_eq!(info, before_info);
    assert_eq!(dest, before_dest);

    let mut info = account(1, 1, vec![0xFF; 12]);
    let mut dest = before_dest.clone();
    assert_eq!(close_account_anchor(&mut info, &mut dest), Ok(()));
    assert_eq!(dest.lamports, u64::MAX);
}

#[test]
fn raising_an_account_funds_allocates_and_assigns() {
    let program = Pubkey::new_from_array([0x50; 32]);
    let new_account = account(1, 0, vec![]);
    let payer = account(2, 1_000, vec![]);
    let invocations = create_or_allocate_account_raw(&program, &new_account, &payer, &700, &165);
    let new_key = LedgerKey::new_from_array([1; 32]);
    assert_eq!(
        invocations,
        vec![
            Invocation {
                instruction: modelled(system_instruction::transfer(
                    &LedgerKey::new_from_array([2; 32]),
                    &new_key,
                    700
                )),
                accounts: vec![payer.key, new_account.key],
                signed: false,
            },
            Invocation {
                instruction: modelled(system_instruction::allocate(&new_key, 165)),
                accounts: vec![new_account.key],
                signed: true,
            },
            Invocation {
                instruction: modelled(system_instruction::assign(&new_key, &LedgerKey::new_from_array([0x50; 32]))),
                accounts: vec![new_account.key],
                signed: true,
            },
        ]
    );
    let signer = AccountMeta { pubkey: new_account.key, is_signer: true, is_writable: true };
    assert_eq!(invocations[1].instruction.accounts, vec![signer]);
    assert_eq!(invocations[2].instruction.accounts, vec![signer]);
    assert_eq!(invocations[1].instruction.program_id, Pubkey::new_from_array([0; 32]));
    assert_eq!(invocations[2].instruction.program_id, Pubkey::new_from_array([0; 32]));
    let mut allocate_data = vec![8u8, 0, 0, 0];
    allocate_data.extend_from_slice(&165u64.to_le_bytes());
    assert_eq!(invocations[1].instruction.data, allocate_data);
    let mut assign_data = vec![1u8, 0, 0, 0];
    assign_data.extend_from_slice(&[0x50; 32]);
    assert_eq!(invocations[2].instruction.data, assign_data);
}

#[test]
fn raising_a_funded_account_skips_the_transfer() {
    let program = Pubkey::new_from_array([0x50; 32]);
    let invocations =
        create_or_allocate_account_raw(&program, &account(1, 0, vec![]), &account(2, 1_000, vec![]), &0, &0);
    assert_eq!(invocations.len(), 2);
    assert_eq!(
        invocations[0].instruction,
        modelled(system_instruction::allocate(&LedgerKey::new_from_array([1; 32]), 0))
    );
    assert!(invocations[0].signed && invocations[1].signed);
}

#[test]
fn make_ata_asks_for_the_associated_token_account() {
    let invocation = make_ata(
        account(1, 0, vec![]),
        account(2, 0, vec![]),
        account(3, 0, vec![]),
        account(4, 0, vec![]),
        account(5, 0, vec![]),
        account(6, 0, vec![]),
    )
    .expect("an address is derived");
    let k = |tag: u8| LedgerKey::new_from_array([tag; 32]);
    let expected = spl_associated_token_account::instruction::create_associated_token_account(
        &k(2),
        &k(3),
        &k(4),
        &k(5),
    );
    assert_eq!(invocation.instruction, modelled(expected.clone()));
    assert_eq!(invocation.instruction.program_id, key(&spl_associated_token_account::id()));
    let derived = m2::derivation::get_associated_token_address_with_program_id(
        &Pubkey::new_from_array([3; 32]),
        &Pubkey::new_from_array([4; 32]),
        &Pubkey::new_from_array([5; 32]),
    )
    .expect("an address is derived");
    let meta = |pubkey: Pubkey, is_signer: bool, is_writable: bool| AccountMeta { pubkey, is_signer, is_writable };
    assert_eq!(
        invocation.instruction.accounts,
        vec![
            meta(Pubkey::new_from_array([2; 32]), true, true),
            meta(derived, false, true),
            meta(Pubkey::new_from_array([3; 32]), false, false),
            meta(Pubkey::new_from_array([4; 32]), false, false),
            meta(Pubkey::new_from_array([0; 32]), false, false),
            meta(Pubkey::new_from_array([5; 32]), false, false),
        ]
    );
    assert_eq!(
        invocation.accounts,
        [2u8, 1, 3, 4, 6, 5].iter().map(|t| Pubkey::new_from_array([*t; 32])).collect::<Vec<_>>()
    );
    assert!(!invocation.signed);
}

fn signer(tag: u8, is_signer: bool) -> AccountInfo {
    let mut a = account(tag, 0, vec![]);
    a.is_signer = is_signer;
    a
}

#[test]
fn payer_is_split_off_when_the_last_account_signed() {
    let accounts = vec![signer(1, true), signer(2, false), signer(3, true)];
    let (rest, payer) = split_payer_from_remaining_accounts(&accounts);
    assert_eq!(rest, &accounts[..2]);
    assert_eq!(payer, Some(&accounts[2]));

    let only = vec![signer(1, true)];
    let (rest, payer) = split_payer_from_remaining_accounts(&only);
    assert!(rest.is_empty());
    assert_eq!(payer, Some(&only[0]));
}

#[test]
fn accounts_stay_whole_without_a_signing_last_account() {
    let accounts = vec![signer(1, true), signer(2, true), signer(3, false)];
    let (rest, payer) = split_payer_from_remaining_accounts(&accounts);
    assert_eq!(rest, &accounts[..]);
    assert_eq!(payer, None);

    let none: Vec<AccountInfo> = vec![];
    let (rest, payer) = split_payer_from_remaining_accounts(&none);
    assert!(rest.is_empty());
    assert_eq!(payer, None);
}

#[test]
fn remaining_account_is_found_by_position_or_reported_missing() {
    let accounts = vec![signer(1, false), signer(2, false)];
    assert_eq!(index_ra(&accounts, 0), Ok(&accounts[0]));
    assert_eq!(index_ra(&accounts, 1), Ok(&accounts[1]));
    assert_eq!(index_ra(&accounts, 2), Err(ErrorCode::MissingRemainingAccount));
    assert_eq!(index_ra(&accounts, usize::MAX), Err(ErrorCode::MissingRemainingAccount));
    assert_eq!(index_ra(&[], 0), Err(ErrorCode::MissingRemainingAccount));
}

#[test]
fn account_reports_its_balance_and_bytes() {
    let a = account(1, 42, vec![1, 2, 3]);
    assert_eq!(a.lamports(), 42);
    assert_eq!(a.data_len(), 3);
    assert!(!a.data_is_empty());
    assert!(account(1, 0, vec![]).data_is_empty());
}
