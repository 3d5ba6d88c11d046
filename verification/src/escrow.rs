//! Raising and closing the accounts that hold funds for a trade.

use vstd::prelude::*;
use crate::account::{AccountInfo, AccountView};
use crate::derivation::{associated_token_address_under, get_associated_token_address_with_program_id};
use crate::errors::ErrorCode;
use crate::instruction::{
    allocate, allocate_instruction, assign, assign_instruction, create_associated_token_account,
    create_associated_token_account_instruction, invocation_views, transfer, transfer_instruction,
    Invocation, InvocationView,
};
use crate::keys::Pubkey;

verus! {

/// Whether an escrow balance is dust: something, but no more than the rent
/// minimum of an empty account.
pub open spec fn is_dust(lamports: u64, min_rent: u64) -> bool {
    lamports != 0 && lamports <= min_rent
}

/// The signed transfer of the escrow's whole balance back to the buyer.
pub open spec fn escrow_refund(escrow: AccountView, buyer: AccountView, system_program: AccountView) -> InvocationView {
    InvocationView {
        instruction: transfer_instruction(escrow.key@, buyer.key@, escrow.lamports),
        accounts: seq![escrow.key, buyer.key, system_program.key],
        signed: true,
    }
}

/// Reclaims a buyer's escrow that holds only dust: gives the transfer of its
/// whole balance to the buyer, signed with the escrow's derivation seeds.
/// An empty escrow, and one that holds more than `min_rent`, the rent
/// minimum of an empty account, is left alone.
pub fn try_close_buyer_escrow(escrow: &AccountInfo, buyer: &AccountInfo, system_program: &AccountInfo, min_rent: u64) -> (r:
    Option<Invocation>)
    ensures
        !is_dust(escrow.lamports, min_rent) ==> r is None,
        is_dust(escrow.lamports, min_rent) ==> r is Some && r->Some_0@ == escrow_refund(
            escrow@,
            buyer@,
            system_program@,
        ),
{
    let escrow_lamports = escrow.lamports();
    if escrow_lamports == 0 || escrow_lamports > min_rent {
        None
    } else {
        let instruction = transfer(&escrow.key, &buyer.key, escrow_lamports);
        let mut accounts: Vec<Pubkey> = Vec::new();
        accounts.push(escrow.key);
        accounts.push(buyer.key);
        accounts.push(system_program.key);
        assert(accounts@ =~= seq![escrow.key, buyer.key, system_program.key]);
        Some(Invocation { instruction, accounts, signed: true })
    }
}

/// An account after it was closed: without lamports, and with the first
/// eight bytes, its tag, zeroed.
pub open spec fn closed(info: AccountView) -> AccountView {
    AccountView {
        lamports: 0,
        data: Seq::new(info.data.len(), |i: int| if i < 8 { 0u8 } else { info.data[i] }),
        ..info
    }
}

/// Closes `info` in favour of `dest`: moves its whole balance to `dest` and
/// zeroes its tag, so that its bytes no longer read as a typed record.
/// Where the sum of the balances leaves the 64-bit range, fails with
/// `NumericalOverflow` and leaves both accounts as they were.
pub fn close_account_anchor(info: &mut AccountInfo, dest: &mut AccountInfo) -> (r: Result<(), ErrorCode>)
    requires
        old(info).data@.len() >= 8,
    ensures
        old(dest).lamports + old(info).lamports > u64::MAX ==> r == Err::<(), ErrorCode>(
            ErrorCode::NumericalOverflow,
        ) && final(info)@ == old(info)@ && final(dest)@ == old(dest)@,
        old(dest).lamports + old(info).lamports <= u64::MAX ==> r == Ok::<(), ErrorCode>(()) && final(info)@
            == closed(old(info)@) && final(dest)@ == (AccountView {
            lamports: (old(dest).lamports + old(info).lamports) as u64,
            ..old(dest)@
        }),
{
    let curr_lamp = info.lamports();
    let sum = match dest.lamports().checked_add(curr_lamp) {
        Some(sum) => sum,
        None => {
            return Err(ErrorCode::NumericalOverflow);
        },
    };
    info.lamports = 0;
    dest.lamports = sum;
    let mut i: usize = 0;
    while i < 8
        invariant
            i <= 8,
            info.data@.len() == old(info).data@.len(),
            info.data@.len() >= 8,
            forall|j: int| 0 <= j < info.data@.len() ==> info.data@[j] == (if j < i { 0u8 } else { old(info).data@[j] }),
            info.key == old(info).key,
            info.is_signer == old(info).is_signer,
            info.is_writable == old(info).is_writable,
            info.lamports == 0,
            info.owner == old(info).owner,
            info.executable == old(info).executable,
            info.rent_epoch == old(info).rent_epoch,
        decreases 8 - i,
    {
        info.data.set(i, 0u8);
        i = i + 1;
    }
    assert(info.data@ =~= closed(old(info)@).data);
    Ok(())
}

/// The work that raises an account of `size` bytes for `program_id` at an
/// address that may hold lamports already: a transfer of the lamports
/// still required, if any, from the payer; then, signed with the new
/// account's derivation seeds, the allocation of its bytes and its
/// assignment to the program.
pub open spec fn raising(program_id: Pubkey, new_account: AccountView, payer: AccountView, required_lamports: u64, size: usize) -> Seq<
    InvocationView,
> {
    let funding = if required_lamports > 0 {
        seq![
            InvocationView {
                instruction: transfer_instruction(payer.key@, new_account.key@, required_lamports),
                accounts: seq![payer.key, new_account.key],
                signed: false,
            },
        ]
    } else {
        Seq::<InvocationView>::empty()
    };
    funding + seq![
        InvocationView {
            instruction: allocate_instruction(new_account.key@, size as u64),
            accounts: seq![new_account.key],
            signed: true,
        },
        InvocationView {
            instruction: assign_instruction(new_account.key@, program_id@),
            accounts: seq![new_account.key],
            signed: true,
        },
    ]
}

/// Lists the work that raises an account of `size` bytes, owned by
/// `program_id`, at the address of `new_account_info`, funded by the payer
/// with `required_lamports`.
pub fn create_or_allocate_account_raw(
    program_id: &Pubkey,
    new_account_info: &AccountInfo,
    payer_info: &AccountInfo,
    required_lamports: &u64,
    size: &usize,
) -> (invocations: Vec<Invocation>)
    ensures
        invocation_views(invocations@) == raising(
            *program_id,
            new_account_info@,
            payer_info@,
            *required_lamports,
            *size,
        ),
{
    let mut invocations: Vec<Invocation> = Vec::new();
    if *required_lamports > 0 {
        let instruction = transfer(&payer_info.key, &new_account_info.key, *required_lamports);
        let mut accounts: Vec<Pubkey> = Vec::new();
        accounts.push(payer_info.key);
        accounts.push(new_account_info.key);
        assert(accounts@ =~= seq![payer_info.key, new_account_info.key]);
        invocations.push(Invocation { instruction, accounts, signed: false });
    }
    let mut allocated: Vec<Pubkey> = Vec::new();
    allocated.push(new_account_info.key);
    assert(allocated@ =~= seq![new_account_info.key]);
    invocations.push(
        Invocation { instruction: allocate(&new_account_info.key, *size as u64), accounts: allocated, signed: true },
    );
    let mut assigned: Vec<Pubkey> = Vec::new();
    assigned.push(new_account_info.key);
    assert(assigned@ =~= seq![new_account_info.key]);
    invocations.push(
        Invocation {
            instruction: assign(&new_account_info.key, program_id),
            accounts: assigned,
            signed: true,
        },
    );
    assert(invocation_views(invocations@) =~= raising(
        *program_id,
        new_account_info@,
        payer_info@,
        *required_lamports,
        *size,
    ));
    invocations
}

/// The creation of the associated token account of `wallet` for `mint`,
/// paid for by `payer`.
pub open spec fn ata_creation(
    ata: AccountView,
    payer: AccountView,
    wallet: AccountView,
    mint: AccountView,
    token_program: AccountView,
    system_program: AccountView,
) -> InvocationView {
    InvocationView {
        instruction: create_associated_token_account_instruction(
            payer.key@,
            wallet.key@,
            mint.key@,
            token_program.key@,
        ),
        accounts: seq![payer.key, ata.key, wallet.key, mint.key, system_program.key, token_program.key],
        signed: false,
    }
}

/// Gives the invocation that creates the associated token account of
/// `wallet` for `mint`, paid for by `payer`; none where no address can be
/// derived for that account.
pub fn make_ata(
    ata: AccountInfo,
    payer: AccountInfo,
    wallet: AccountInfo,
    mint: AccountInfo,
    token_program: AccountInfo,
    system_program: AccountInfo,
) -> (r: Option<Invocation>)
    ensures
        associated_token_address_under(wallet.key@, mint.key@, token_program.key@) is Some ==> r is Some
            && r->Some_0@ == ata_creation(ata@, payer@, wallet@, mint@, token_program@, system_program@),
        associated_token_address_under(wallet.key@, mint.key@, token_program.key@) is None ==> r is None,
{
    if get_associated_token_address_with_program_id(&wallet.key, &mint.key, &token_program.key).is_none() {
        return None;
    }
    let instruction = create_associated_token_account(&payer.key, &wallet.key, &mint.key, &token_program.key);
    let mut accounts: Vec<Pubkey> = Vec::new();
    accounts.push(payer.key);
    accounts.push(ata.key);
    accounts.push(wallet.key);
    accounts.push(mint.key);
    accounts.push(system_program.key);
    accounts.push(token_program.key);
    assert(accounts@ =~= seq![payer.key, ata.key, wallet.key, mint.key, system_program.key, token_program.key]);
    Some(Invocation { instruction, accounts, signed: false })
}

} // verus!
