//! The lifecycle of a trade-state record: created in the current schema, or
//! migrated to it from the legacy one, in place.

use vstd::prelude::*;
use crate::account::{AccountInfo, AccountView};
use crate::errors::ErrorCode;
use crate::instruction::{
    create_account, create_account_instruction, transfer, transfer_instruction, Invocation,
    InvocationView,
};
use crate::keys::Pubkey;
use crate::states::{ProgramConstants, TradeStateSchema};

verus! {

/// What the bytes at a trade-state address are.
#[derive(Clone, Copy, Debug, PartialEq, Eq, Structural)]
pub enum TradeStateShape {
    /// No bytes: the record was never created.
    Absent,
    /// As long as a legacy record.
    Legacy,
    /// Tagged as a current record.
    Current,
    /// Neither of these.
    Unrecognized,
}

/// Whether the bytes start with the schema's tag.
pub open spec fn is_tagged(schema: TradeStateSchema, data: Seq<u8>) -> bool {
    data.len() >= 8 && data.subrange(0, 8) == schema.spec_discriminator()
}

/// The shape of the bytes under a schema. The length decides first; the tag
/// is read only where the bytes are neither absent nor of legacy length.
pub open spec fn shape_of(schema: TradeStateSchema, data: Seq<u8>) -> TradeStateShape {
    if data.len() == 0 {
        TradeStateShape::Absent
    } else if data.len() == schema.spec_legacy_len() {
        TradeStateShape::Legacy
    } else if is_tagged(schema, data) {
        TradeStateShape::Current
    } else {
        TradeStateShape::Unrecognized
    }
}

/// A fresh current record: the tag, then zeros up to the current length.
pub open spec fn fresh_record(schema: TradeStateSchema) -> Seq<u8> {
    Seq::new(
        schema.spec_current_len() as nat,
        |i: int| if i < 8 { schema.spec_discriminator()[i] } else { 0u8 },
    )
}

/// The lamports an account lacks to be exempt from rent.
pub open spec fn missing_rent(lamports: u64, rent_minimum: u64) -> u64 {
    if rent_minimum > lamports {
        (rent_minimum - lamports) as u64
    } else {
        0
    }
}

/// Determines the shape of an account's bytes.
pub fn classify_trade_state(schema: TradeStateSchema, data: &Vec<u8>) -> (shape: TradeStateShape)
    ensures
        shape == shape_of(schema, data@),
{
    if data.len() == 0 {
        TradeStateShape::Absent
    } else if data.len() == schema.legacy_len() {
        TradeStateShape::Legacy
    } else if data.len() < 8 {
        TradeStateShape::Unrecognized
    } else {
        let tag = schema.discriminator();
        let mut i: usize = 0;
        while i < 8
            invariant
                i <= 8,
                data@.len() >= 8,
                data@.len() != schema.spec_legacy_len(),
                tag@ == schema.spec_discriminator(),
                forall|j: int| 0 <= j < i ==> data@[j] == tag@[j],
            decreases 8 - i,
        {
            if data[i] != tag[i] {
                assert(data@.subrange(0, 8)[i as int] != schema.spec_discriminator()[i as int]);
                return TradeStateShape::Unrecognized;
            }
            i = i + 1;
        }
        assert(data@.subrange(0, 8) =~= schema.spec_discriminator());
        TradeStateShape::Current
    }
}

/// Builds a fresh current record.
fn make_fresh_record(schema: TradeStateSchema) -> (data: Vec<u8>)
    ensures
        data@ == fresh_record(schema),
{
    let tag = schema.discriminator();
    let len = schema.current_len();
    let mut data: Vec<u8> = Vec::new();
    let mut i: usize = 0;
    while i < len
        invariant
            i <= len,
            len == schema.spec_current_len(),
            8 <= len,
            tag@ == schema.spec_discriminator(),
            data@.len() == i,
            forall|j: int| 0 <= j < i ==> data@[j] == (if j < 8 { tag@[j] } else { 0u8 }),
        decreases len - i,
    {
        if i < 8 {
            data.push(tag[i]);
        } else {
            data.push(0u8);
        }
        i = i + 1;
    }
    assert(data@ =~= fresh_record(schema));
    data
}

/// The work that brought a trade-state record to the current schema.
#[derive(Clone, Debug, PartialEq, Eq)]
pub enum TradeStateUpgrade {
    /// The record did not exist: the account is created by the given
    /// invocation, and the tag is written into it.
    Created { invocation: Invocation },
    /// The record was a legacy one: its bytes are zeroed and grown in place,
    /// the balance is topped up by the given invocation where it fell short
    /// of the rent minimum, and the tag is written.
    Migrated { top_up: Option<Invocation> },
    /// The record was current already.
    Unchanged,
}

/// The signed creation of the record's account, paid for by `payer`.
pub open spec fn creation(schema: TradeStateSchema, program_id: Pubkey, payer: Pubkey, account: AccountView, rent_minimum: u64) -> InvocationView {
    InvocationView {
        instruction: create_account_instruction(
            payer@,
            account.key@,
            missing_rent(account.lamports, rent_minimum),
            schema.spec_current_len() as u64,
            program_id@,
        ),
        accounts: seq![payer, account.key],
        signed: true,
    }
}

/// The transfer from `payer` that brings the account up to the rent minimum.
pub open spec fn top_up(payer: Pubkey, account: AccountView, rent_minimum: u64) -> InvocationView {
    InvocationView {
        instruction: transfer_instruction(payer@, account.key@, missing_rent(account.lamports, rent_minimum)),
        accounts: seq![payer, account.key],
        signed: false,
    }
}

/// The account once its record is in the current schema: absent and legacy
/// records become a fresh current record with the rent made up, an absent
/// one also passes to the program; a current record stays as it is.
pub open spec fn upgraded(schema: TradeStateSchema, program_id: Pubkey, account: AccountView, rent_minimum: u64) -> AccountView {
    match shape_of(schema, account.data) {
        TradeStateShape::Absent => AccountView {
            lamports: (account.lamports + missing_rent(account.lamports, rent_minimum)) as u64,
            data: fresh_record(schema),
            owner: program_id,
            ..account
        },
        TradeStateShape::Legacy => AccountView {
            lamports: (account.lamports + missing_rent(account.lamports, rent_minimum)) as u64,
            data: fresh_record(schema),
            ..account
        },
        _ => account,
    }
}

/// Whether `upgrade` is the work that the account's shape calls for: the
/// signed creation for an absent record; for a legacy one the top-up exactly
/// where the balance is short of the rent minimum; nothing for a current one.
pub open spec fn is_work_for(
    schema: TradeStateSchema,
    program_id: Pubkey,
    payer: Pubkey,
    account: AccountView,
    rent_minimum: u64,
    upgrade: TradeStateUpgrade,
) -> bool {
    match shape_of(schema, account.data) {
        TradeStateShape::Absent => match upgrade {
            TradeStateUpgrade::Created { invocation } => invocation@ == creation(
                schema,
                program_id,
                payer,
                account,
                rent_minimum,
            ),
            _ => false,
        },
        TradeStateShape::Legacy => match upgrade {
            TradeStateUpgrade::Migrated { top_up: Some(invocation) } => account.lamports < rent_minimum
                && invocation@ == top_up(payer, account, rent_minimum),
            TradeStateUpgrade::Migrated { top_up: None } => account.lamports >= rent_minimum,
            _ => false,
        },
        TradeStateShape::Current => upgrade is Unchanged,
        TradeStateShape::Unrecognized => false,
    }
}

/// Whether an account holds a current record and its rent.
pub open spec fn is_current_and_funded(schema: TradeStateSchema, account: AccountView, rent_minimum: u64) -> bool {
    &&& account.data.len() == schema.spec_current_len()
    &&& is_tagged(schema, account.data)
    &&& account.lamports >= rent_minimum
}

/// Whether `r` and `after` are what bringing the record of `before` to the
/// current schema yields: an unrecognized record is refused and left alone;
/// any other is upgraded, with the work that its shape calls for.
pub open spec fn is_upgrade_of(
    schema: TradeStateSchema,
    program_id: Pubkey,
    payer: Pubkey,
    before: AccountView,
    rent_minimum: u64,
    r: Result<TradeStateUpgrade, ErrorCode>,
    after: AccountView,
) -> bool {
    if shape_of(schema, before.data) is Unrecognized {
        r == Err::<TradeStateUpgrade, ErrorCode>(ErrorCode::InvalidAccountState) && after == before
    } else {
        &&& r is Ok
        &&& after == upgraded(schema, program_id, before, rent_minimum)
        &&& is_work_for(schema, program_id, payer, before, rent_minimum, r->Ok_0)
    }
}

/// Brings the record at `account` to the current schema, whatever it was
/// before, and tells what the ledger has to carry out for it.
///
/// On success `account` is as the ledger leaves it after that work; on
/// failure it is untouched.
pub fn create_or_realloc_trade_state(
    schema: TradeStateSchema,
    program_id: &Pubkey,
    account: &mut AccountInfo,
    payer: &AccountInfo,
    rent_minimum: u64,
) -> (r: Result<TradeStateUpgrade, ErrorCode>)
    ensures
        is_upgrade_of(schema, *program_id, payer.key, old(account)@, rent_minimum, r, final(account)@),
        r is Ok ==> shape_of(schema, final(account)@.data) is Current,
        r is Ok && shape_of(schema, old(account)@.data) !is Current ==> is_current_and_funded(
            schema,
            final(account)@,
            rent_minimum,
        ),
        final(account).lamports >= old(account).lamports,
{
    let required_lamports = rent_minimum.saturating_sub(account.lamports);
    proof {
        use_type_invariant(&schema);
        lemma_fresh_record_is_current(schema);
    }
    match classify_trade_state(schema, &account.data) {
        TradeStateShape::Absent => {
            let instruction = create_account(
                &payer.key,
                &account.key,
                required_lamports,
                schema.current_len() as u64,
                program_id,
            );
            let mut accounts: Vec<Pubkey> = Vec::new();
            accounts.push(payer.key);
            accounts.push(account.key);
            assert(accounts@ =~= seq![payer.key, account.key]);
            account.lamports = account.lamports + required_lamports;
            account.data = make_fresh_record(schema);
            account.owner = *program_id;
            Ok(TradeStateUpgrade::Created { invocation: Invocation { instruction, accounts, signed: true } })
        },
        TradeStateShape::Legacy => {
            let top_up = if required_lamports > 0 {
                let instruction = transfer(&payer.key, &account.key, required_lamports);
                let mut accounts: Vec<Pubkey> = Vec::new();
                accounts.push(payer.key);
                accounts.push(account.key);
                assert(accounts@ =~= seq![payer.key, account.key]);
                Some(Invocation { instruction, accounts, signed: false })
            } else {
                None
            };
            account.lamports = account.lamports + required_lamports;
            account.data = make_fresh_record(schema);
            Ok(TradeStateUpgrade::Migrated { top_up })
        },
        TradeStateShape::Current => Ok(TradeStateUpgrade::Unchanged),
        TradeStateShape::Unrecognized => Err(ErrorCode::InvalidAccountState),
    }
}

/// A fresh record has the current length and tag, and so the current shape.
pub proof fn lemma_fresh_record_is_current(schema: TradeStateSchema)
    requires
        schema.wf(),
    ensures
        fresh_record(schema).len() == schema.spec_current_len(),
        is_tagged(schema, fresh_record(schema)),
        shape_of(schema, fresh_record(schema)) is Current,
{
    schema.lemma_discriminator_len();
    assert(fresh_record(schema).subrange(0, 8) =~= schema.spec_discriminator());
}

/// Brings the seller's trade-state record at `sts` to the current schema.
/// See [`create_or_realloc_trade_state`].
pub fn create_or_realloc_seller_trade_state(
    sts: &mut AccountInfo,
    payer: &AccountInfo,
    constants: &ProgramConstants,
    rent_minimum: u64,
) -> (r: Result<TradeStateUpgrade, ErrorCode>)
    ensures
        is_upgrade_of(
            constants.seller_trade_state,
            constants.program_id,
            payer.key,
            old(sts)@,
            rent_minimum,
            r,
            final(sts)@,
        ),
        r is Ok ==> shape_of(constants.seller_trade_state, final(sts)@.data) is Current,
        r is Ok && shape_of(constants.seller_trade_state, old(sts)@.data) !is Current ==> is_current_and_funded(
            constants.seller_trade_state,
            final(sts)@,
            rent_minimum,
        ),
        final(sts).lamports >= old(sts).lamports,
{
    create_or_realloc_trade_state(constants.seller_trade_state, &constants.program_id, sts, payer, rent_minimum)
}

/// Brings the buyer's trade-state record at `bts` to the current schema.
/// See [`create_or_realloc_trade_state`].
pub fn create_or_realloc_buyer_trade_state(
    bts: &mut AccountInfo,
    payer: &AccountInfo,
    constants: &ProgramConstants,
    rent_minimum: u64,
) -> (r: Result<TradeStateUpgrade, ErrorCode>)
    ensures
        is_upgrade_of(
            constants.buyer_trade_state,
            constants.program_id,
            payer.key,
            old(bts)@,
            rent_minimum,
            r,
            final(bts)@,
        ),
        r is Ok ==> shape_of(constants.buyer_trade_state, final(bts)@.data) is Current,
        r is Ok && shape_of(constants.buyer_trade_state, old(bts)@.data) !is Current ==> is_current_and_funded(
            constants.buyer_trade_state,
            final(bts)@,
            rent_minimum,
        ),
        final(bts).lamports >= old(bts).lamports,
{
    create_or_realloc_trade_state(constants.buyer_trade_state, &constants.program_id, bts, payer, rent_minimum)
}

/// Upgrading is idempotent: a record that was upgraded once is current, and
/// upgrading it again, at whatever rent, changes nothing. In particular a
/// current record is never touched.
pub proof fn lemma_upgrade_is_idempotent(
    schema: TradeStateSchema,
    program_id: Pubkey,
    account: AccountView,
    rent_minimum: u64,
    later_rent_minimum: u64,
)
    requires
        schema.wf(),
        shape_of(schema, account.data) !is Unrecognized,
    ensures
        shape_of(schema, upgraded(schema, program_id, account, rent_minimum).data) is Current,
        upgraded(schema, program_id, upgraded(schema, program_id, account, rent_minimum), later_rent_minimum)
            == upgraded(schema, program_id, account, rent_minimum),
        shape_of(schema, account.data) is Current ==> upgraded(schema, program_id, account, rent_minimum) == account,
{
    lemma_fresh_record_is_current(schema);
}

/// Migration reaches the current schema: an absent or legacy record, whatever
/// its bytes and balance, is afterwards exactly as long as a current record,
/// carries the tag, and holds at least the rent minimum, without having lost
/// a lamport.
pub proof fn lemma_upgrade_reaches_current(
    schema: TradeStateSchema,
    program_id: Pubkey,
    account: AccountView,
    rent_minimum: u64,
)
    requires
        schema.wf(),
        shape_of(schema, account.data) is Absent || shape_of(schema, account.data) is Legacy,
    ensures
        is_current_and_funded(schema, upgraded(schema, program_id, account, rent_minimum), rent_minimum),
        upgraded(schema, program_id, account, rent_minimum).lamports >= account.lamports,
        upgraded(schema, program_id, account, rent_minimum).key == account.key,
{
    lemma_fresh_record_is_current(schema);
}

/// The expiry of a buyer's trade state: the one given, or, where none was
/// given (zero), the program's default span from the reading of the ledger
/// clock on.
pub fn get_default_buyer_state_expiry(buyer_state_expiry: i64, unix_timestamp: i64, constants: &ProgramConstants) -> (expiry:
    i64)
    requires
        buyer_state_expiry == 0 ==> i64::MIN <= unix_timestamp + constants.default_bid_expiry_seconds_after_now
            <= i64::MAX,
    ensures
        buyer_state_expiry != 0 ==> expiry == buyer_state_expiry,
        buyer_state_expiry == 0 ==> expiry == unix_timestamp + constants.default_bid_expiry_seconds_after_now,
{
    if buyer_state_expiry == 0 {
        unix_timestamp + constants.default_bid_expiry_seconds_after_now
    } else {
        buyer_state_expiry
    }
}

} // verus!
