use vstd::prelude::*;
use vstd::slice::slice_to_vec;
use vstd::utf8::encode_utf8;
use crate::address::{Address, system_program_id};
use crate::error::NescrowError;
use crate::instructions::{decode_instruction, InstructionView, NescrowInstruction};
use crate::pda::{escrow_address, find_escrow_address, found_view};
use crate::state::{
    decode_record, encode_record, Escrow, EscrowView, ESCROW_SIZE, ESCROW_STATUS_ACCEPTED,
    ESCROW_STATUS_CANCELLED, ESCROW_STATUS_OPEN, MAX_DESCRIPTION_LEN,
};
use crate::transitions::{accept_result, cancel_result, complete_result, extend_result};

verus! {

broadcast use vstd::utf8::decode_utf8_encode_utf8;

/// What an operation reads and writes of one account.
#[derive(Debug, Clone)]
pub struct AccountState {
    pub key: Address,
    pub owner: Address,
    pub is_signer: bool,
    pub is_writable: bool,
    pub lamports: u64,
    pub data: Vec<u8>,
}

pub ghost struct AccountView {
    pub key: Seq<u8>,
    pub owner: Seq<u8>,
    pub is_signer: bool,
    pub is_writable: bool,
    pub lamports: u64,
    pub data: Seq<u8>,
}

impl View for AccountState {
    type V = AccountView;

    open spec fn view(&self) -> AccountView {
        AccountView {
            key: self.key@,
            owner: self.owner@,
            is_signer: self.is_signer,
            is_writable: self.is_writable,
            lamports: self.lamports,
            data: self.data@,
        }
    }
}

pub open spec fn accounts_view(v: Seq<AccountState>) -> Seq<AccountView> {
    Seq::new(v.len(), |i: int| v[i]@)
}

/// An operation whose outcome `res` was applied to the account list: on
/// success the list became the new one, on failure nothing changed.
pub open spec fn outcome(
    res: Result<Seq<AccountView>, NescrowError>,
    before: Seq<AccountView>,
    after: Seq<AccountView>,
    r: Result<(), NescrowError>,
) -> bool {
    match res {
        Ok(n) => r is Ok && after == n,
        Err(e) => r == Err::<(), NescrowError>(e) && after == before,
    }
}

/// The record kept in `escrow`, given the derivation's result `found`: the
/// account must sit at the derived address, belong to the program, have the
/// record's size and hold a record.
pub open spec fn checked_record(
    program: Seq<u8>,
    escrow: AccountView,
    found: Option<(Seq<u8>, u8)>,
) -> Result<EscrowView, NescrowError> {
    match found {
        None => Err(NescrowError::NotExpectedAddress),
        Some(found) => if found.0 != escrow.key {
            Err(NescrowError::NotExpectedAddress)
        } else if escrow.owner != program {
            Err(NescrowError::WrongAccountOwner)
        } else if escrow.data.len() != ESCROW_SIZE {
            Err(NescrowError::InvalidAccountLen)
        } else {
            match decode_record(escrow.data) {
                Some(r) => Ok(r),
                None => Err(NescrowError::InvalidAccountData),
            }
        },
    }
}

/// The record kept in `escrow` for (creator, counter).
pub open spec fn stored_record(
    program: Seq<u8>,
    escrow: AccountView,
    creator: Seq<u8>,
    counter: u64,
) -> Result<EscrowView, NescrowError> {
    checked_record(program, escrow, escrow_address(program, creator, counter))
}

/// The escrow account (second in the list) rewritten with `data`.
pub open spec fn write_record(accts: Seq<AccountView>, data: Seq<u8>) -> Seq<AccountView> {
    accts.update(1, AccountView { data, ..accts[1] })
}

/// The escrow account rewritten with `data` and `amount` moved from its
/// balance to that of the account at `to`.
pub open spec fn pay(accts: Seq<AccountView>, to: int, amount: u64, data: Seq<u8>) -> Result<
    Seq<AccountView>,
    NescrowError,
> {
    let e = accts[1];
    let d = accts[to];
    if e.lamports < amount {
        Err(NescrowError::InsufficientFunds)
    } else if d.lamports + amount > u64::MAX {
        Err(NescrowError::ArithmeticOverflow)
    } else {
        Ok(
            accts.update(1, AccountView { lamports: (e.lamports - amount) as u64, data, ..e }).update(
                to,
                AccountView { lamports: (d.lamports + amount) as u64, ..d },
            ),
        )
    }
}

/// The first record of an escrow.
pub open spec fn initial_record(
    creator: Seq<u8>,
    counter: u64,
    amount: u64,
    description: Seq<char>,
    expiry_time: i64,
    bump: u8,
) -> EscrowView {
    EscrowView {
        creator,
        taker: None,
        amount,
        status: ESCROW_STATUS_OPEN,
        winner: None,
        description,
        expiry_time,
        escrow_bump: bump,
        counter,
    }
}

/// Create, over [fee payer, escrow, creator, allocator], given the
/// derivation's result `found` for (creator, counter).
pub open spec fn create_with(
    program: Seq<u8>,
    accts: Seq<AccountView>,
    found: Option<(Seq<u8>, u8)>,
    counter: u64,
    amount: u64,
    description: Seq<char>,
    expiry_time: i64,
    rent_minimum: u64,
) -> Result<Seq<AccountView>, NescrowError> {
    if accts.len() < 4 {
        Err(NescrowError::NotEnoughAccountKeys)
    } else if !accts[0].is_signer || !accts[2].is_signer {
        Err(NescrowError::InvalidSignerPermission)
    } else {
        match found {
            None => Err(NescrowError::NotExpectedAddress),
            Some(found) => if found.0 != accts[1].key {
                Err(NescrowError::NotExpectedAddress)
            } else if accts[3].key != system_program_id() {
                Err(NescrowError::NotExpectedAddress)
            } else if encode_utf8(description).len() > MAX_DESCRIPTION_LEN {
                Err(NescrowError::DescriptionTooLong)
            } else if accts[1].lamports != 0 || accts[1].data.len() != 0 {
                Err(NescrowError::AccountAlreadyInUse)
            } else if accts[0].lamports < rent_minimum {
                Err(NescrowError::InsufficientFunds)
            } else {
                let rec = initial_record(
                    accts[2].key,
                    counter,
                    amount,
                    description,
                    expiry_time,
                    found.1,
                );
                Ok(
                    accts.update(
                        0,
                        AccountView {
                            lamports: (accts[0].lamports - rent_minimum) as u64,
                            ..accts[0]
                        },
                    ).update(
                        1,
                        AccountView {
                            owner: program,
                            lamports: rent_minimum,
                            data: encode_record(rec),
                            ..accts[1]
                        },
                    ),
                )
            },
        }
    }
}

/// Create, over [fee payer, escrow, creator, allocator].
pub open spec fn create_outcome(
    program: Seq<u8>,
    accts: Seq<AccountView>,
    counter: u64,
    amount: u64,
    description: Seq<char>,
    expiry_time: i64,
    rent_minimum: u64,
) -> Result<Seq<AccountView>, NescrowError> {
    create_with(
        program,
        accts,
        escrow_address(program, accts[2].key, counter),
        counter,
        amount,
        description,
        expiry_time,
        rent_minimum,
    )
}

/// Accept, over [fee payer, escrow, taker], given the derivation's result `found`.
pub open spec fn accept_with(
    program: Seq<u8>,
    accts: Seq<AccountView>,
    found: Option<(Seq<u8>, u8)>,
    now: i64,
) -> Result<Seq<AccountView>, NescrowError> {
    if accts.len() < 3 {
        Err(NescrowError::NotEnoughAccountKeys)
    } else if !accts[0].is_signer || !accts[2].is_signer {
        Err(NescrowError::InvalidSignerPermission)
    } else {
        match checked_record(program, accts[1], found) {
            Err(e) => Err(e),
            Ok(r) => match accept_result(r, accts[2].key, now) {
                Err(e) => Err(e),
                Ok(n) => Ok(write_record(accts, encode_record(n))),
            },
        }
    }
}

/// Accept, over [fee payer, escrow, taker].
pub open spec fn accept_outcome(
    program: Seq<u8>,
    accts: Seq<AccountView>,
    creator: Seq<u8>,
    counter: u64,
    now: i64,
) -> Result<Seq<AccountView>, NescrowError> {
    accept_with(program, accts, escrow_address(program, creator, counter), now)
}

/// Complete, over [fee payer, escrow, authority, winner], given the
/// derivation's result `found`; pays the stake to the winner.
pub open spec fn complete_with(
    program: Seq<u8>,
    accts: Seq<AccountView>,
    found: Option<(Seq<u8>, u8)>,
) -> Result<Seq<AccountView>, NescrowError> {
    if accts.len() < 4 {
        Err(NescrowError::NotEnoughAccountKeys)
    } else if !accts[0].is_signer || !accts[2].is_signer {
        Err(NescrowError::InvalidSignerPermission)
    } else {
        match checked_record(program, accts[1], found) {
            Err(e) => Err(e),
            Ok(r) => match complete_result(r, accts[2].key, accts[3].key) {
                Err(e) => Err(e),
                Ok(n) => pay(accts, 3, n.amount, encode_record(n)),
            },
        }
    }
}

/// Complete, over [fee payer, escrow, authority, winner].
pub open spec fn complete_outcome(
    program: Seq<u8>,
    accts: Seq<AccountView>,
    creator: Seq<u8>,
    counter: u64,
) -> Result<Seq<AccountView>, NescrowError> {
    complete_with(program, accts, escrow_address(program, creator, counter))
}

/// Cancel, over [fee payer, escrow, creator], given the derivation's result
/// `found`; refunds the stake to the creator.
pub open spec fn cancel_with(
    program: Seq<u8>,
    accts: Seq<AccountView>,
    found: Option<(Seq<u8>, u8)>,
) -> Result<Seq<AccountView>, NescrowError> {
    if accts.len() < 3 {
        Err(NescrowError::NotEnoughAccountKeys)
    } else if !accts[0].is_signer || !accts[2].is_signer {
        Err(NescrowError::InvalidSignerPermission)
    } else {
        match checked_record(program, accts[1], found) {
            Err(e) => Err(e),
            Ok(r) => match cancel_result(r, accts[2].key) {
                Err(e) => Err(e),
                Ok(n) => pay(accts, 2, n.amount, encode_record(n)),
            },
        }
    }
}

/// Cancel, over [fee payer, escrow, creator].
pub open spec fn cancel_outcome(program: Seq<u8>, accts: Seq<AccountView>, counter: u64) -> Result<
    Seq<AccountView>,
    NescrowError,
> {
    cancel_with(program, accts, escrow_address(program, accts[2].key, counter))
}

/// Extend, over [fee payer, escrow, creator], given the derivation's result `found`.
pub open spec fn extend_with(
    program: Seq<u8>,
    accts: Seq<AccountView>,
    found: Option<(Seq<u8>, u8)>,
    new_expiry_time: i64,
) -> Result<Seq<AccountView>, NescrowError> {
    if accts.len() < 3 {
        Err(NescrowError::NotEnoughAccountKeys)
    } else if !accts[0].is_signer || !accts[2].is_signer {
        Err(NescrowError::InvalidSignerPermission)
    } else {
        match checked_record(program, accts[1], found) {
            Err(e) => Err(e),
            Ok(r) => match extend_result(r, accts[2].key, new_expiry_time) {
                Err(e) => Err(e),
                Ok(n) => Ok(write_record(accts, encode_record(n))),
            },
        }
    }
}

/// Extend, over [fee payer, escrow, creator].
pub open spec fn extend_outcome(
    program: Seq<u8>,
    accts: Seq<AccountView>,
    counter: u64,
    new_expiry_time: i64,
) -> Result<Seq<AccountView>, NescrowError> {
    extend_with(program, accts, escrow_address(program, accts[2].key, counter), new_expiry_time)
}

/// A whole invocation: the payload's operation applied to the account list.
pub open spec fn process_outcome(
    program: Seq<u8>,
    accts: Seq<AccountView>,
    data: Seq<u8>,
    now: i64,
    rent_minimum: u64,
) -> Result<Seq<AccountView>, NescrowError> {
    match decode_instruction(data) {
        None => Err(NescrowError::InvalidInstruction),
        Some(InstructionView::Create { counter, amount, description, expiry_time }) => create_outcome(
            program,
            accts,
            counter,
            amount,
            description,
            expiry_time,
            rent_minimum,
        ),
        Some(InstructionView::Accept { creator, counter }) => accept_outcome(
            program,
            accts,
            creator,
            counter,
            now,
        ),
        Some(InstructionView::Complete { creator, counter }) => complete_outcome(
            program,
            accts,
            creator,
            counter,
        ),
        Some(InstructionView::Cancel { counter }) => cancel_outcome(program, accts, counter),
        Some(InstructionView::Extend { counter, new_expiry_time }) => extend_outcome(
            program,
            accts,
            counter,
            new_expiry_time,
        ),
    }
}

/// A record read from a buffer of the record's size fits the layout.
pub proof fn lemma_stored_record_encodable(b: Seq<u8>)
    requires
        b.len() == ESCROW_SIZE,
        decode_record(b) is Some,
    ensures
        decode_record(b)->Some_0.encodable(),
{
    let r = decode_record(b)->Some_0;
    let n = crate::wire::u32_at(b, 107) as int;
    let sub = b.subrange(111, 111 + n);
    assert(encode_utf8(r.description) == sub);
}

/// An operation invoked on a stored record whose status has no edge for it
/// in the transition table fails with the error that the table lists; by
/// `outcome`, the account list, stored record bytes included, then stays as it was.
pub proof fn lemma_rejected_operations(
    program: Seq<u8>,
    accts: Seq<AccountView>,
    creator: Seq<u8>,
    counter: u64,
    now: i64,
    new_expiry_time: i64,
)
    requires
        accts.len() >= 4,
        accts[0].is_signer,
        accts[2].is_signer,
    ensures
        ({
            let s = stored_record(program, accts[1], creator, counter);
            s is Ok && s->Ok_0.status != ESCROW_STATUS_OPEN ==> accept_outcome(
                program,
                accts,
                creator,
                counter,
                now,
            ) == Err::<Seq<AccountView>, NescrowError>(
                if s->Ok_0.status == ESCROW_STATUS_CANCELLED {
                    NescrowError::EscrowNotOpen
                } else {
                    NescrowError::EscrowAlreadyAccepted
                },
            )
        }),
        ({
            let s = stored_record(program, accts[1], creator, counter);
            s is Ok && s->Ok_0.status != ESCROW_STATUS_ACCEPTED ==> complete_outcome(
                program,
                accts,
                creator,
                counter,
            ) == Err::<Seq<AccountView>, NescrowError>(NescrowError::EscrowNotAccepted)
        }),
        ({
            let s = stored_record(program, accts[1], accts[2].key, counter);
            s is Ok && s->Ok_0.status != ESCROW_STATUS_OPEN ==> cancel_outcome(
                program,
                accts,
                counter,
            ) == Err::<Seq<AccountView>, NescrowError>(NescrowError::EscrowAlreadyAccepted)
        }),
        ({
            let s = stored_record(program, accts[1], accts[2].key, counter);
            s is Ok && s->Ok_0.status != ESCROW_STATUS_OPEN ==> extend_outcome(
                program,
                accts,
                counter,
                new_expiry_time,
            ) == Err::<Seq<AccountView>, NescrowError>(NescrowError::EscrowNotOpen)
        }),
{
}

/// Reads the record from the escrow account, given the derivation's result:
/// checks the account's address, owner and size first.
pub fn check_escrow_account(
    program_id: &Address,
    escrow: &AccountState,
    derived: &Option<(Address, u8)>,
) -> (r: Result<Escrow, NescrowError>)
    ensures
        match checked_record(program_id@, escrow@, found_view(*derived)) {
            Ok(v) => r is Ok && r->Ok_0@ == v && v.encodable(),
            Err(e) => r == Err::<Escrow, NescrowError>(e),
        },
{
    let address = match derived {
        Some((address, _bump)) => address,
        None => return Err(NescrowError::NotExpectedAddress),
    };
    if !address.same_as(&escrow.key) {
        return Err(NescrowError::NotExpectedAddress);
    }
    if !escrow.owner.same_as(program_id) {
        return Err(NescrowError::WrongAccountOwner);
    }
    if escrow.data.len() != ESCROW_SIZE {
        return Err(NescrowError::InvalidAccountLen);
    }
    match Escrow::decode(escrow.data.as_slice()) {
        Some(record) => {
            proof {
                lemma_stored_record_encodable(escrow.data@);
            }
            Ok(record)
        },
        None => Err(NescrowError::InvalidAccountData),
    }
}

/// Replaces the escrow account's data with the record's stored form.
fn store_escrow(accounts: &mut Vec<AccountState>, record: &Escrow)
    requires
        old(accounts)@.len() > 1,
        record@.encodable(),
    ensures
        accounts_view(final(accounts)@) == write_record(
            accounts_view(old(accounts)@),
            encode_record(record@),
        ),
{
    let bytes = record.encode();
    let e = &accounts[1];
    let updated = AccountState {
        key: e.key,
        owner: e.owner,
        is_signer: e.is_signer,
        is_writable: e.is_writable,
        lamports: e.lamports,
        data: bytes,
    };
    accounts.set(1, updated);
    assert(accounts_view(accounts@) =~= write_record(
        accounts_view(old(accounts)@),
        encode_record(record@),
    ));
}

/// Stores the record and moves `amount` from the escrow account to the account at `to`.
fn pay_out(accounts: &mut Vec<AccountState>, to: usize, amount: u64, record: &Escrow) -> (r: Result<
    (),
    NescrowError,
>)
    requires
        1 < to < old(accounts)@.len(),
        record@.encodable(),
    ensures
        outcome(
            pay(accounts_view(old(accounts)@), to as int, amount, encode_record(record@)),
            accounts_view(old(accounts)@),
            accounts_view(final(accounts)@),
            r,
        ),
{
    let from_balance = accounts[1].lamports;
    let to_balance = accounts[to].lamports;
    if from_balance < amount {
        return Err(NescrowError::InsufficientFunds);
    }
    if to_balance > u64::MAX - amount {
        return Err(NescrowError::ArithmeticOverflow);
    }
    let bytes = record.encode();
    let e = &accounts[1];
    let debited = AccountState {
        key: e.key,
        owner: e.owner,
        is_signer: e.is_signer,
        is_writable: e.is_writable,
        lamports: from_balance - amount,
        data: bytes,
    };
    let d = &accounts[to];
    let credited = AccountState {
        key: d.key,
        owner: d.owner,
        is_signer: d.is_signer,
        is_writable: d.is_writable,
        lamports: to_balance + amount,
        data: slice_to_vec(d.data.as_slice()),
    };
    accounts.set(1, debited);
    accounts.set(to, credited);
    proof {
        let before = accounts_view(old(accounts)@);
        let e = before[1];
        let d = before[to as int];
        assert(accounts_view(accounts@) =~= before.update(
            1,
            AccountView { lamports: (e.lamports - amount) as u64, data: encode_record(record@), ..e },
        ).update(to as int, AccountView { lamports: (d.lamports + amount) as u64, ..d }));
    }
    Ok(())
}

/// Creates the escrow of (creator, counter), given the derivation's result:
/// allocates its account, funded to `rent_minimum` by the fee payer, and
/// writes the Open record.
pub fn create_escrow_at(
    program_id: &Address,
    accounts: &mut Vec<AccountState>,
    derived: &Option<(Address, u8)>,
    counter: u64,
    amount: u64,
    description: String,
    expiry_time: i64,
    rent_minimum: u64,
) -> (r: Result<(), NescrowError>)
    ensures
        outcome(
            create_with(
                program_id@,
                accounts_view(old(accounts)@),
                found_view(*derived),
                counter,
                amount,
                description@,
                expiry_time,
                rent_minimum,
            ),
            accounts_view(old(accounts)@),
            accounts_view(final(accounts)@),
            r,
        ),
{
    if accounts.len() < 4 {
        return Err(NescrowError::NotEnoughAccountKeys);
    }
    if !accounts[0].is_signer || !accounts[2].is_signer {
        return Err(NescrowError::InvalidSignerPermission);
    }
    let (address, bump) = match derived {
        Some(found) => *found,
        None => return Err(NescrowError::NotExpectedAddress),
    };
    if !address.same_as(&accounts[1].key) {
        return Err(NescrowError::NotExpectedAddress);
    }
    let allocator = Address::system_program();
    if !accounts[3].key.same_as(&allocator) {
        return Err(NescrowError::NotExpectedAddress);
    }
    if description.as_str().as_bytes().len() > MAX_DESCRIPTION_LEN {
        return Err(NescrowError::DescriptionTooLong);
    }
    if accounts[1].lamports != 0 || accounts[1].data.len() != 0 {
        return Err(NescrowError::AccountAlreadyInUse);
    }
    if accounts[0].lamports < rent_minimum {
        return Err(NescrowError::InsufficientFunds);
    }
    let record = Escrow {
        creator: accounts[2].key,
        taker: None,
        amount,
        status: ESCROW_STATUS_OPEN,
        winner: None,
        description,
        expiry_time,
        escrow_bump: bump,
        counter,
    };
    let bytes = record.encode();
    let f = &accounts[0];
    let payer = AccountState {
        key: f.key,
        owner: f.owner,
        is_signer: f.is_signer,
        is_writable: f.is_writable,
        lamports: f.lamports - rent_minimum,
        data: slice_to_vec(f.data.as_slice()),
    };
    let e = &accounts[1];
    let escrow = AccountState {
        key: e.key,
        owner: *program_id,
        is_signer: e.is_signer,
        is_writable: e.is_writable,
        lamports: rent_minimum,
        data: bytes,
    };
    accounts.set(0, payer);
    accounts.set(1, escrow);
    proof {
        let before = accounts_view(old(accounts)@);
        assert(accounts_view(accounts@) =~= before.update(
            0,
            AccountView { lamports: (before[0].lamports - rent_minimum) as u64, ..before[0] },
        ).update(
            1,
            AccountView {
                owner: program_id@,
                lamports: rent_minimum,
                data: encode_record(record@),
                ..before[1]
            },
        ));
    }
    Ok(())
}

/// Creates the escrow of (signing creator, counter).
pub fn create_escrow(
    program_id: &Address,
    accounts: &mut Vec<AccountState>,
    counter: u64,
    amount: u64,
    description: String,
    expiry_time: i64,
    rent_minimum: u64,
) -> (r: Result<(), NescrowError>)
    ensures
        outcome(
            create_outcome(
                program_id@,
                accounts_view(old(accounts)@),
                counter,
                amount,
                description@,
                expiry_time,
                rent_minimum,
            ),
            accounts_view(old(accounts)@),
            accounts_view(final(accounts)@),
            r,
        ),
{
    if accounts.len() < 4 {
        return Err(NescrowError::NotEnoughAccountKeys);
    }
    let derived = find_escrow_address(program_id, &accounts[2].key, counter);
    create_escrow_at(
        program_id,
        accounts,
        &derived,
        counter,
        amount,
        description,
        expiry_time,
        rent_minimum,
    )
}

/// Accepts the Open escrow for the signing taker, given the derivation's result.
pub fn accept_escrow_at(
    program_id: &Address,
    accounts: &mut Vec<AccountState>,
    derived: &Option<(Address, u8)>,
    now: i64,
) -> (r: Result<(), NescrowError>)
    ensures
        outcome(
            accept_with(program_id@, accounts_view(old(accounts)@), found_view(*derived), now),
            accounts_view(old(accounts)@),
            accounts_view(final(accounts)@),
            r,
        ),
{
    if accounts.len() < 3 {
        return Err(NescrowError::NotEnoughAccountKeys);
    }
    if !accounts[0].is_signer || !accounts[2].is_signer {
        return Err(NescrowError::InvalidSignerPermission);
    }
    let mut record = match check_escrow_account(program_id, &accounts[1], derived) {
        Ok(record) => record,
        Err(e) => return Err(e),
    };
    let taker = accounts[2].key;
    match record.accept(&taker, now) {
        Ok(()) => {},
        Err(e) => return Err(e),
    }
    store_escrow(accounts, &record);
    Ok(())
}

/// Accepts the Open escrow of (creator, counter) for the signing taker.
pub fn accept_escrow(
    program_id: &Address,
    accounts: &mut Vec<AccountState>,
    creator: &Address,
    counter: u64,
    now: i64,
) -> (r: Result<(), NescrowError>)
    ensures
        outcome(
            accept_outcome(program_id@, accounts_view(old(accounts)@), creator@, counter, now),
            accounts_view(old(accounts)@),
            accounts_view(final(accounts)@),
            r,
        ),
{
    let derived = find_escrow_address(program_id, creator, counter);
    accept_escrow_at(program_id, accounts, &derived, now)
}

/// Completes the Accepted escrow and pays the stake to the winner, given the
/// derivation's result.
pub fn complete_escrow_at(
    program_id: &Address,
    accounts: &mut Vec<AccountState>,
    derived: &Option<(Address, u8)>,
) -> (r: Result<(), NescrowError>)
    ensures
        outcome(
            complete_with(program_id@, accounts_view(old(accounts)@), found_view(*derived)),
            accounts_view(old(accounts)@),
            accounts_view(final(accounts)@),
            r,
        ),
{
    if accounts.len() < 4 {
        return Err(NescrowError::NotEnoughAccountKeys);
    }
    if !accounts[0].is_signer || !accounts[2].is_signer {
        return Err(NescrowError::InvalidSignerPermission);
    }
    let mut record = match check_escrow_account(program_id, &accounts[1], derived) {
        Ok(record) => record,
        Err(e) => return Err(e),
    };
    let authority = accounts[2].key;
    let winner = accounts[3].key;
    match record.complete(&authority, &winner) {
        Ok(()) => {},
        Err(e) => return Err(e),
    }
    let amount = record.amount;
    pay_out(accounts, 3, amount, &record)
}

/// Completes the Accepted escrow of (creator, counter) and pays the stake to the winner.
pub fn complete_escrow(
    program_id: &Address,
    accounts: &mut Vec<AccountState>,
    creator: &Address,
    counter: u64,
) -> (r: Result<(), NescrowError>)
    ensures
        outcome(
            complete_outcome(program_id@, accounts_view(old(accounts)@), creator@, counter),
            accounts_view(old(accounts)@),
            accounts_view(final(accounts)@),
            r,
        ),
{
    let derived = find_escrow_address(program_id, creator, counter);
    complete_escrow_at(program_id, accounts, &derived)
}

/// Cancels the Open escrow and refunds the stake, given the derivation's result.
pub fn cancel_escrow_at(
    program_id: &Address,
    accounts: &mut Vec<AccountState>,
    derived: &Option<(Address, u8)>,
) -> (r: Result<(), NescrowError>)
    ensures
        outcome(
            cancel_with(program_id@, accounts_view(old(accounts)@), found_view(*derived)),
            accounts_view(old(accounts)@),
            accounts_view(final(accounts)@),
            r,
        ),
{
    if accounts.len() < 3 {
        return Err(NescrowError::NotEnoughAccountKeys);
    }
    if !accounts[0].is_signer || !accounts[2].is_signer {
        return Err(NescrowError::InvalidSignerPermission);
    }
    let mut record = match check_escrow_account(program_id, &accounts[1], derived) {
        Ok(record) => record,
        Err(e) => return Err(e),
    };
    let creator = accounts[2].key;
    match record.cancel(&creator) {
        Ok(()) => {},
        Err(e) => return Err(e),
    }
    let amount = record.amount;
    pay_out(accounts, 2, amount, &record)
}

/// Cancels the Open escrow of (signing creator, counter) and refunds the stake.
pub fn cancel_escrow(program_id: &Address, accounts: &mut Vec<AccountState>, counter: u64) -> (r:
    Result<(), NescrowError>)
    ensures
        outcome(
            cancel_outcome(program_id@, accounts_view(old(accounts)@), counter),
            accounts_view(old(accounts)@),
            accounts_view(final(accounts)@),
            r,
        ),
{
    if accounts.len() < 3 {
        return Err(NescrowError::NotEnoughAccountKeys);
    }
    let derived = find_escrow_address(program_id, &accounts[2].key, counter);
    cancel_escrow_at(program_id, accounts, &derived)
}

/// Moves the expiry time of the Open escrow later, given the derivation's result.
pub fn extend_escrow_at(
    program_id: &Address,
    accounts: &mut Vec<AccountState>,
    derived: &Option<(Address, u8)>,
    new_expiry_time: i64,
) -> (r: Result<(), NescrowError>)
    ensures
        outcome(
            extend_with(
                program_id@,
                accounts_view(old(accounts)@),
                found_view(*derived),
                new_expiry_time,
            ),
            accounts_view(old(accounts)@),
            accounts_view(final(accounts)@),
            r,
        ),
{
    if accounts.len() < 3 {
        return Err(NescrowError::NotEnoughAccountKeys);
    }
    if !accounts[0].is_signer || !accounts[2].is_signer {
        return Err(NescrowError::InvalidSignerPermission);
    }
    let mut record = match check_escrow_account(program_id, &accounts[1], derived) {
        Ok(record) => record,
        Err(e) => return Err(e),
    };
    let creator = accounts[2].key;
    match record.extend(&creator, new_expiry_time) {
        Ok(()) => {},
        Err(e) => return Err(e),
    }
    store_escrow(accounts, &record);
    Ok(())
}

/// Moves the expiry time of the Open escrow of (signing creator, counter) later.
pub fn extend_escrow(
    program_id: &Address,
    accounts: &mut Vec<AccountState>,
    counter: u64,
    new_expiry_time: i64,
) -> (r: Result<(), NescrowError>)
    ensures
        outcome(
            extend_outcome(program_id@, accounts_view(old(accounts)@), counter, new_expiry_time),
            accounts_view(old(accounts)@),
            accounts_view(final(accounts)@),
            r,
        ),
{
    if accounts.len() < 3 {
        return Err(NescrowError::NotEnoughAccountKeys);
    }
    let derived = find_escrow_address(program_id, &accounts[2].key, counter);
    extend_escrow_at(program_id, accounts, &derived, new_expiry_time)
}

/// Routes a decoded payload to its operation.
pub struct Processor;

impl Processor {
    /// Decodes the payload and runs its operation over the account list;
    /// `now` is the clock's time and `rent_minimum` the balance that keeps a
    /// record's account alive.
    pub fn process(
        program_id: &Address,
        accounts: &mut Vec<AccountState>,
        data: &[u8],
        now: i64,
        rent_minimum: u64,
    ) -> (r: Result<(), NescrowError>)
        ensures
            outcome(
                process_outcome(
                    program_id@,
                    accounts_view(old(accounts)@),
                    data@,
                    now,
                    rent_minimum,
                ),
                accounts_view(old(accounts)@),
                accounts_view(final(accounts)@),
                r,
            ),
    {
        let instruction = match NescrowInstruction::unpack(data) {
            Ok(i) => i,
            Err(e) => return Err(e),
        };
        match instruction {
            NescrowInstruction::CreateEscrow(args) => create_escrow(
                program_id,
                accounts,
                args.counter,
                args.amount,
                args.description,
                args.expiry_time,
                rent_minimum,
            ),
            NescrowInstruction::AcceptEscrow(args) => accept_escrow(
                program_id,
                accounts,
                &args.creator,
                args.counter,
                now,
            ),
            NescrowInstruction::CompleteEscrow(args) => complete_escrow(
                program_id,
                accounts,
                &args.creator,
                args.counter,
            ),
            NescrowInstruction::CancelEscrow(args) => cancel_escrow(
                program_id,
                accounts,
                args.counter,
            ),
            NescrowInstruction::ExtendEscrow(args) => extend_escrow(
                program_id,
                accounts,
                args.counter,
                args.new_expiry_time,
            ),
        }
    }
}

} // verus!
