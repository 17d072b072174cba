use nescrow::address::Address;
use nescrow::error::NescrowError;
use nescrow::instructions::{
    AcceptEscrowArgs, CancelEscrowArgs, CompleteEscrowArgs, CreateEscrowArgs, ExtendEscrowArgs,
    NescrowInstruction,
};
use nescrow::pda::find_escrow_address;
use nescrow::processor::{
    accept_escrow, accept_escrow_at, cancel_escrow, cancel_escrow_at, check_escrow_account,
    complete_escrow, complete_escrow_at, create_escrow, create_escrow_at, extend_escrow,
    extend_escrow_at, AccountState, Processor,
};
use nescrow::state::{
    Escrow, ESCROW_SIZE, ESCROW_STATUS_ACCEPTED, ESCROW_STATUS_CANCELLED,
    ESCROW_STATUS_COMPLETED, ESCROW_STATUS_OPEN,
};

const T: i64 = 1_700_000_000;
const RENT: u64 = 3_556_080;
const AMOUNT: u64 = 1000;

fn key(b: u8) -> Address {
    Address::new([b; 32])
}

fn program() -> Address {
    key(7)
}

fn creator() -> Address {
    key(1)
}

fn taker() -> Address {
    key(2)
}

fn account(k: Address, signer: bool, lamports: u64) -> AccountState {
    AccountState {
        key: k,
        owner: Address::system_program(),
        is_signer: signer,
        is_writable: true,
        lamports,
        data: vec![],
    }
}

fn escrow_key(counter: u64) -> Address {
    find_escrow_address(&program(), &creator(), counter).unwrap().0
}

/// Runs Create(counter 1, AMOUNT, "bet", T + 3600) and returns the escrow account.
fn created() -> AccountState {
    let mut accounts = vec![
        account(key(9), true, 1_000_000_000_000),
        account(escrow_key(1), false, 0),
        account(creator(), true, 1_000_000_000_000),
        account(Address::system_program(), false, 1),
    ];
    let ix = NescrowInstruction::CreateEscrow(CreateEscrowArgs {
        counter: 1,
        amount: AMOUNT,
        description: String::from("bet"),
        expiry_time: T + 3600,
    });
    Processor::process(&program(), &mut accounts, &ix.pack(), T, RENT).unwrap();
    assert_eq!(accounts[0].lamports, 1_000_000_000_000 - RENT);
    accounts[1].clone()
}

fn record(a: &AccountState) -> Escrow {
    Escrow::decode(&a.data).unwrap()
}

fn accept_list(escrow: &AccountState) -> Vec<AccountState> {
    vec![account(key(9), true, 5), escrow.clone(), account(taker(), true, 500)]
}

fn accepted() -> AccountState {
    let mut accounts = accept_list(&created());
    accept_escrow(&program(), &mut accounts, &creator(), 1, T).unwrap();
    accounts[1].clone()
}

#[test]
fn create_on_fresh_address_opens() {
    let escrow = created();
    assert_eq!(escrow.data.len(), ESCROW_SIZE);
    assert_eq!(escrow.owner, program());
    assert_eq!(escrow.lamports, RENT);
    let r = record(&escrow);
    assert_eq!(r.status, ESCROW_STATUS_OPEN);
    assert_eq!(r.taker, None);
    assert_eq!(r.winner, None);
    assert_eq!(r.creator, creator());
    assert_eq!(r.amount, AMOUNT);
    assert_eq!(r.description, "bet");
    assert_eq!(r.expiry_time, T + 3600);
    assert_eq!(r.counter, 1);
    assert_eq!(r.escrow_bump, find_escrow_address(&program(), &creator(), 1).unwrap().1);
}

#[test]
fn create_twice_is_rejected() {
    let escrow = created();
    let mut accounts = vec![
        account(key(9), true, 1_000_000_000_000),
        escrow.clone(),
        account(creator(), true, 1),
        account(Address::system_program(), false, 1),
    ];
    let r = create_escrow(&program(), &mut accounts, 1, 5, String::from("x"), T, RENT);
    assert_eq!(r, Err(NescrowError::AccountAlreadyInUse));
    assert_eq!(accounts[1].data, escrow.data);
}

#[test]
fn create_checks_signers_address_and_description() {
    let fresh = || {
        vec![
            account(key(9), true, 1_000_000_000_000),
            account(escrow_key(1), false, 0),
            account(creator(), true, 0),
            account(Address::system_program(), false, 1),
        ]
    };
    let mut unsigned = fresh();
    unsigned[2].is_signer = false;
    let r = create_escrow(&program(), &mut unsigned, 1, 5, String::from("x"), T, RENT);
    assert_eq!(r, Err(NescrowError::InvalidSignerPermission));
    let mut wrong = fresh();
    let r = create_escrow(&program(), &mut wrong, 2, 5, String::from("x"), T, RENT);
    assert_eq!(r, Err(NescrowError::NotExpectedAddress));
    let mut allocator = fresh();
    allocator[3].key = key(3);
    let r = create_escrow(&program(), &mut allocator, 1, 5, String::from("x"), T, RENT);
    assert_eq!(r, Err(NescrowError::NotExpectedAddress));
    let mut long = fresh();
    let r = create_escrow(&program(), &mut long, 1, 5, "a".repeat(256), T, RENT);
    assert_eq!(r, Err(NescrowError::DescriptionTooLong));
    let mut fits = fresh();
    assert_eq!(create_escrow(&program(), &mut fits, 1, 5, "a".repeat(255), T, RENT), Ok(()));
    let mut poor = fresh();
    poor[0].lamports = RENT - 1;
    let r = create_escrow(&program(), &mut poor, 1, 5, String::from("x"), T, RENT);
    assert_eq!(r, Err(NescrowError::InsufficientFunds));
    let mut short = fresh();
    short.pop();
    let r = create_escrow(&program(), &mut short, 1, 5, String::from("x"), T, RENT);
    assert_eq!(r, Err(NescrowError::NotEnoughAccountKeys));
}

#[test]
fn accept_before_expiry_then_again() {
    let mut accounts = accept_list(&created());
    assert_eq!(accept_escrow(&program(), &mut accounts, &creator(), 1, T + 3599), Ok(()));
    let r = record(&accounts[1]);
    assert_eq!(r.status, ESCROW_STATUS_ACCEPTED);
    assert_eq!(r.taker, Some(taker()));
    let before = accounts[1].data.clone();
    let again = accept_escrow(&program(), &mut accounts, &creator(), 1, T);
    assert_eq!(again, Err(NescrowError::EscrowAlreadyAccepted));
    assert_eq!(accounts[1].data, before);
}

#[test]
fn accept_after_expiry_fails() {
    let escrow = created();
    for now in [T + 3600, T + 10_000] {
        let mut accounts = accept_list(&escrow);
        let r = accept_escrow(&program(), &mut accounts, &creator(), 1, now);
        assert_eq!(r, Err(NescrowError::EscrowExpired));
        assert_eq!(accounts[1].data, escrow.data);
    }
}

#[test]
fn accept_through_process() {
    let mut accounts = accept_list(&created());
    let ix = NescrowInstruction::AcceptEscrow(AcceptEscrowArgs { creator: creator(), counter: 1 });
    assert_eq!(Processor::process(&program(), &mut accounts, &ix.pack(), T, RENT), Ok(()));
    assert_eq!(record(&accounts[1]).status, ESCROW_STATUS_ACCEPTED);
}

#[test]
fn accept_validation_order() {
    let escrow = created();
    let mut unsigned = accept_list(&escrow);
    unsigned[2].is_signer = false;
    unsigned[1].owner = key(5);
    let r = accept_escrow(&program(), &mut unsigned, &creator(), 1, T);
    assert_eq!(r, Err(NescrowError::InvalidSignerPermission));
    let mut wrong_counter = accept_list(&escrow);
    let r = accept_escrow(&program(), &mut wrong_counter, &creator(), 2, T);
    assert_eq!(r, Err(NescrowError::NotExpectedAddress));
    let mut owner = accept_list(&escrow);
    owner[1].owner = key(5);
    owner[1].data.push(0);
    let r = accept_escrow(&program(), &mut owner, &creator(), 1, T);
    assert_eq!(r, Err(NescrowError::WrongAccountOwner));
    let mut size = accept_list(&escrow);
    size[1].data.push(0);
    let r = accept_escrow(&program(), &mut size, &creator(), 1, T);
    assert_eq!(r, Err(NescrowError::InvalidAccountLen));
    let mut garbage = accept_list(&escrow);
    garbage[1].data[73] = 9;
    let r = accept_escrow(&program(), &mut garbage, &creator(), 1, T);
    assert_eq!(r, Err(NescrowError::InvalidAccountData));
}

fn complete_list(escrow: &AccountState, authority: Address, winner: Address) -> Vec<AccountState> {
    let mut stake = escrow.clone();
    stake.lamports += AMOUNT;
    vec![account(key(9), true, 5), stake, account(authority, true, 0), account(winner, false, 700)]
}

#[test]
fn complete_by_outsider_fails_then_by_creator_pays_taker() {
    let escrow = accepted();
    let mut outsider = complete_list(&escrow, key(3), taker());
    let r = complete_escrow(&program(), &mut outsider, &creator(), 1);
    assert_eq!(r, Err(NescrowError::InvalidAuthority));
    assert_eq!(outsider[1].data, escrow.data);
    assert_eq!(outsider[3].lamports, 700);
    let mut accounts = complete_list(&escrow, creator(), taker());
    assert_eq!(complete_escrow(&program(), &mut accounts, &creator(), 1), Ok(()));
    let r = record(&accounts[1]);
    assert_eq!(r.status, ESCROW_STATUS_COMPLETED);
    assert_eq!(r.winner, Some(taker()));
    assert_eq!(accounts[3].lamports, 700 + AMOUNT);
    assert_eq!(accounts[1].lamports, RENT);
}

#[test]
fn complete_rejects_bad_winner_and_open_record() {
    let escrow = accepted();
    let mut bad_winner = complete_list(&escrow, taker(), key(4));
    let r = complete_escrow(&program(), &mut bad_winner, &creator(), 1);
    assert_eq!(r, Err(NescrowError::InvalidWinner));
    let mut open = complete_list(&created(), creator(), creator());
    let r = complete_escrow(&program(), &mut open, &creator(), 1);
    assert_eq!(r, Err(NescrowError::EscrowNotAccepted));
    let mut through = complete_list(&escrow, taker(), creator());
    let ix = NescrowInstruction::CompleteEscrow(CompleteEscrowArgs { creator: creator(), counter: 1 });
    assert_eq!(Processor::process(&program(), &mut through, &ix.pack(), T, RENT), Ok(()));
    assert_eq!(record(&through[1]).winner, Some(creator()));
}

#[test]
fn complete_without_stake_fails() {
    let escrow = accepted();
    let mut accounts = complete_list(&escrow, creator(), taker());
    accounts[1].lamports = AMOUNT - 1;
    let r = complete_escrow(&program(), &mut accounts, &creator(), 1);
    assert_eq!(r, Err(NescrowError::InsufficientFunds));
    assert_eq!(accounts[1].data, escrow.data);
}

fn creator_list(escrow: &AccountState, lamports: u64) -> Vec<AccountState> {
    let mut stake = escrow.clone();
    stake.lamports += AMOUNT;
    vec![account(key(9), true, 5), stake, account(creator(), true, lamports)]
}

#[test]
fn cancel_while_accepted_fails_while_open_refunds() {
    let mut busy = creator_list(&accepted(), 40);
    let before = busy[1].data.clone();
    let r = cancel_escrow(&program(), &mut busy, 1);
    assert_eq!(r, Err(NescrowError::EscrowAlreadyAccepted));
    assert_eq!(busy[1].data, before);
    assert_eq!(busy[2].lamports, 40);
    let mut accounts = creator_list(&created(), 40);
    assert_eq!(cancel_escrow(&program(), &mut accounts, 1), Ok(()));
    assert_eq!(record(&accounts[1]).status, ESCROW_STATUS_CANCELLED);
    assert_eq!(accounts[2].lamports, 40 + AMOUNT);
    let ix = NescrowInstruction::CancelEscrow(CancelEscrowArgs { counter: 1 });
    let r = Processor::process(&program(), &mut accounts, &ix.pack(), T, RENT);
    assert_eq!(r, Err(NescrowError::EscrowAlreadyAccepted));
}

#[test]
fn extend_while_open_changes_only_expiry() {
    let escrow = created();
    let mut accounts = creator_list(&escrow, 0);
    assert_eq!(extend_escrow(&program(), &mut accounts, 1, T + 7200), Ok(()));
    let old = record(&escrow);
    let new = record(&accounts[1]);
    assert_eq!(new.expiry_time, T + 7200);
    assert_eq!(new.status, old.status);
    assert_eq!(new.creator, old.creator);
    assert_eq!(new.taker, old.taker);
    assert_eq!(new.amount, old.amount);
    assert_eq!(new.winner, old.winner);
    assert_eq!(new.description, old.description);
    assert_eq!(new.escrow_bump, old.escrow_bump);
    assert_eq!(new.counter, old.counter);
    assert_eq!(accounts[1].lamports, escrow.lamports + AMOUNT);
    for bad in [T + 7200, T] {
        let before = accounts[1].data.clone();
        let r = extend_escrow(&program(), &mut accounts, 1, bad);
        assert_eq!(r, Err(NescrowError::InvalidExpiry));
        assert_eq!(accounts[1].data, before);
    }
}

#[test]
fn extend_when_not_open_fails() {
    let mut accounts = creator_list(&accepted(), 0);
    let ix = NescrowInstruction::ExtendEscrow(ExtendEscrowArgs { counter: 1, new_expiry_time: T * 2 });
    let r = Processor::process(&program(), &mut accounts, &ix.pack(), T, RENT);
    assert_eq!(r, Err(NescrowError::EscrowNotOpen));
}

#[test]
fn process_rejects_malformed_payload() {
    let mut accounts = creator_list(&created(), 0);
    let r = Processor::process(&program(), &mut accounts, &[8, 1, 2], T, RENT);
    assert_eq!(r, Err(NescrowError::InvalidInstruction));
    let r = Processor::process(&program(), &mut accounts, &[], T, RENT);
    assert_eq!(r, Err(NescrowError::InvalidInstruction));
}

fn stored_at(at: Address, status: u8, lamports: u64) -> AccountState {
    let taker_key = if status == ESCROW_STATUS_ACCEPTED { Some(taker()) } else { None };
    let r = Escrow {
        creator: creator(),
        taker: taker_key,
        amount: 10,
        status,
        winner: None,
        description: String::from("d"),
        expiry_time: 100,
        escrow_bump: 3,
        counter: 4,
    };
    AccountState {
        key: at,
        owner: program(),
        is_signer: false,
        is_writable: true,
        lamports,
        data: r.encode(),
    }
}

#[test]
fn operations_take_the_derived_address() {
    let at = key(8);
    let escrow = stored_at(at, ESCROW_STATUS_OPEN, 50);
    let mut accounts = vec![account(key(9), true, 1), escrow.clone(), account(taker(), true, 1)];
    let r = accept_escrow_at(&program(), &mut accounts, &None, 0);
    assert_eq!(r, Err(NescrowError::NotExpectedAddress));
    let r = accept_escrow_at(&program(), &mut accounts, &Some((key(6), 3)), 0);
    assert_eq!(r, Err(NescrowError::NotExpectedAddress));
    assert_eq!(accounts[1].data, escrow.data);
    assert_eq!(accept_escrow_at(&program(), &mut accounts, &Some((at, 3)), 99), Ok(()));
    assert_eq!(record(&accounts[1]).status, ESCROW_STATUS_ACCEPTED);
    assert_eq!(record(&accounts[1]).taker, Some(taker()));
}

#[test]
fn check_escrow_account_reads_the_record() {
    let at = key(8);
    let escrow = stored_at(at, ESCROW_STATUS_OPEN, 50);
    let r = check_escrow_account(&program(), &escrow, &Some((at, 3))).unwrap();
    assert_eq!(r.amount, 10);
    assert_eq!(r.counter, 4);
    let r = check_escrow_account(&key(5), &escrow, &Some((at, 3)));
    assert_eq!(r.unwrap_err(), NescrowError::WrongAccountOwner);
}

#[test]
fn cancel_and_extend_with_given_address() {
    let at = key(8);
    let mut accounts = vec![
        account(key(9), true, 1),
        stored_at(at, ESCROW_STATUS_OPEN, 50),
        account(creator(), true, 5),
    ];
    assert_eq!(extend_escrow_at(&program(), &mut accounts, &Some((at, 3)), 200), Ok(()));
    assert_eq!(record(&accounts[1]).expiry_time, 200);
    assert_eq!(cancel_escrow_at(&program(), &mut accounts, &Some((at, 3))), Ok(()));
    assert_eq!(accounts[1].lamports, 40);
    assert_eq!(accounts[2].lamports, 15);
    let r = extend_escrow_at(&program(), &mut accounts, &Some((at, 3)), 300);
    assert_eq!(r, Err(NescrowError::EscrowNotOpen));
}

#[test]
fn complete_with_given_address_pays_creator() {
    let at = key(8);
    let mut accounts = vec![
        account(key(9), true, 1),
        stored_at(at, ESCROW_STATUS_ACCEPTED, 50),
        account(taker(), true, 0),
        account(creator(), false, 7),
    ];
    assert_eq!(complete_escrow_at(&program(), &mut accounts, &Some((at, 3))), Ok(()));
    assert_eq!(accounts[3].lamports, 17);
    assert_eq!(accounts[1].lamports, 40);
    assert_eq!(record(&accounts[1]).status, ESCROW_STATUS_COMPLETED);
    assert_eq!(record(&accounts[1]).winner, Some(creator()));
}

#[test]
fn complete_overflowing_balance_fails() {
    let at = key(8);
    let mut accounts = vec![
        account(key(9), true, 1),
        stored_at(at, ESCROW_STATUS_ACCEPTED, 50),
        account(taker(), true, 0),
        account(taker(), false, u64::MAX - 5),
    ];
    let r = complete_escrow_at(&program(), &mut accounts, &Some((at, 3)));
    assert_eq!(r, Err(NescrowError::ArithmeticOverflow));
    assert_eq!(accounts[1].lamports, 50);
}

#[test]
fn create_with_given_address() {
    let at = key(8);
    let mut accounts = vec![
        account(key(9), true, 100),
        account(at, false, 0),
        account(creator(), true, 0),
        account(Address::system_program(), false, 1),
    ];
    let r = create_escrow_at(&program(), &mut accounts, &Some((at, 200)), 4, 10, String::from("d"), 100, 60);
    assert_eq!(r, Ok(()));
    assert_eq!(accounts[0].lamports, 40);
    assert_eq!(accounts[1].lamports, 60);
    assert_eq!(accounts[1].owner, program());
    let rec = record(&accounts[1]);
    assert_eq!(rec.escrow_bump, 200);
    assert_eq!(rec.status, ESCROW_STATUS_OPEN);
}
