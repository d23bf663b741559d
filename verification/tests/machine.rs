use escrow_solana::codec::{decode, encode};
use escrow_solana::errors::EscrowError;
use escrow_solana::machine::{
    complete_withdraw, create_escrow, fund_escrow, withdraw_escrow, FundRequest, WithdrawRequest,
};
use escrow_solana::record::{Escrow, EscrowStatus, Identity};

const DEPOSITOR: Identity = [1u8; 32];
const RECIPIENT: Identity = [2u8; 32];
const STRANGER: Identity = [3u8; 32];

fn pending_escrow(now: i64, offset: i64) -> Escrow {
    create_escrow(DEPOSITOR, RECIPIENT, 1000, offset, now, 253, false).unwrap()
}

#[test]
fn create_records_the_given_fields() {
    let now: i64 = 1_700_000_000;
    let escrow = pending_escrow(now, 3600);
    assert_eq!(escrow.depositor, DEPOSITOR);
    assert_eq!(escrow.recipient, RECIPIENT);
    assert_eq!(escrow.amount, 1000);
    assert_eq!(escrow.expiry, now + 3600);
    assert_eq!(escrow.status, EscrowStatus::Pending);
    assert_eq!(escrow.bump, 253);
}

#[test]
fn create_then_decode_round_trips() {
    let now: i64 = 1_700_000_000;
    let escrow = pending_escrow(now, 3600);
    let persisted = encode(&escrow);
    let read_back = decode(&persisted).unwrap();
    assert_eq!(read_back.status, EscrowStatus::Pending);
    assert_eq!(read_back.expiry, now + 3600);
    assert_eq!(read_back, escrow);
}

#[test]
fn create_on_occupied_address_fails() {
    let r = create_escrow(DEPOSITOR, RECIPIENT, 1000, 3600, 1_700_000_000, 253, true);
    assert_eq!(r, Err(EscrowError::AllocationFailed));
}

#[test]
fn withdraw_by_stranger_is_unauthorized() {
    let escrow = pending_escrow(1_700_000_000, 3600);
    // Whatever the clock says, a caller who is not the recorded
    // recipient is turned away and the record keeps its status.
    for now in [0, 1_700_000_000, i64::MAX] {
        assert_eq!(withdraw_escrow(&escrow, &STRANGER, now), Err(EscrowError::Unauthorized));
        assert_eq!(withdraw_escrow(&escrow, &DEPOSITOR, now), Err(EscrowError::Unauthorized));
    }
    assert_eq!(escrow.status, EscrowStatus::Pending);
}

#[test]
fn withdraw_before_gate_is_not_ready() {
    let now: i64 = 1_700_000_000;
    let escrow = pending_escrow(now, 3600);
    assert_eq!(withdraw_escrow(&escrow, &RECIPIENT, now), Err(EscrowError::EscrowNotReady));
    assert_eq!(
        withdraw_escrow(&escrow, &RECIPIENT, now + 3599),
        Err(EscrowError::EscrowNotReady)
    );
    assert_eq!(escrow.status, EscrowStatus::Pending);
}

#[test]
fn withdraw_twice_fails_the_second_time() {
    let now: i64 = 1_700_000_000;
    let mut escrow = pending_escrow(now, 3600);
    let request = withdraw_escrow(&escrow, &RECIPIENT, now + 3600).unwrap();
    assert_eq!(request.amount, 1000);
    assert_eq!(complete_withdraw(&mut escrow, true), Ok(()));
    assert_eq!(escrow.status, EscrowStatus::Completed);
    assert_eq!(
        withdraw_escrow(&escrow, &RECIPIENT, now + 3600),
        Err(EscrowError::InvalidStatus)
    );
}

#[test]
fn full_escrow_scenario() {
    let now: i64 = 1_700_000_000;
    let mut escrow = pending_escrow(now, 3600);
    let mut custody_balance: u64 = 1000;
    let mut recipient_balance: u64 = 0;

    // At `now` the expiry has not elapsed yet.
    assert_eq!(withdraw_escrow(&escrow, &RECIPIENT, now), Err(EscrowError::EscrowNotReady));
    assert_eq!((custody_balance, recipient_balance), (1000, 0));

    // At `now + 3601` the recipient's withdrawal is authorized; the
    // runtime carries the transfer out and reports back.
    let request = withdraw_escrow(&escrow, &RECIPIENT, now + 3601).unwrap();
    assert_eq!(
        request,
        WithdrawRequest { depositor: DEPOSITOR, recipient: RECIPIENT, amount: 1000, bump: 253 }
    );
    custody_balance -= request.amount;
    recipient_balance += request.amount;
    assert_eq!(complete_withdraw(&mut escrow, true), Ok(()));
    assert_eq!(escrow.status, EscrowStatus::Completed);
    assert_eq!((custody_balance, recipient_balance), (0, 1000));

    // A second attempt finds the record settled.
    assert_eq!(
        withdraw_escrow(&escrow, &RECIPIENT, now + 3601),
        Err(EscrowError::InvalidStatus)
    );
    assert_eq!((custody_balance, recipient_balance), (0, 1000));
}

#[test]
fn stranger_after_expiry_moves_nothing() {
    let now: i64 = 1_700_000_000;
    let escrow = pending_escrow(now, 3600);
    let custody_balance: u64 = 1000;
    assert_eq!(
        withdraw_escrow(&escrow, &STRANGER, now + 10_000),
        Err(EscrowError::Unauthorized)
    );
    assert_eq!(escrow.status, EscrowStatus::Pending);
    assert_eq!(custody_balance, 1000);
}

#[test]
fn failed_transfer_leaves_record_pending() {
    let now: i64 = 1_700_000_000;
    let mut escrow = pending_escrow(now, 3600);
    let before = escrow;
    assert!(withdraw_escrow(&escrow, &RECIPIENT, now + 3600).is_ok());
    assert_eq!(complete_withdraw(&mut escrow, false), Err(EscrowError::TransferFailed));
    assert_eq!(escrow, before);
    // The recipient may simply try again once the collaborator recovers.
    assert!(withdraw_escrow(&escrow, &RECIPIENT, now + 3600).is_ok());
    assert_eq!(complete_withdraw(&mut escrow, true), Ok(()));
    assert_eq!(escrow.status, EscrowStatus::Completed);
}

#[test]
fn fund_is_reserved_for_the_depositor() {
    let mut escrow = pending_escrow(1_700_000_000, 3600);
    assert_eq!(
        fund_escrow(&escrow, &DEPOSITOR, 1000),
        Ok(FundRequest { depositor: DEPOSITOR, amount: 1000 })
    );
    assert_eq!(fund_escrow(&escrow, &RECIPIENT, 1000), Err(EscrowError::Unauthorized));
    assert_eq!(fund_escrow(&escrow, &STRANGER, 1000), Err(EscrowError::Unauthorized));
    assert!(withdraw_escrow(&escrow, &RECIPIENT, i64::MAX).is_ok());
    assert_eq!(complete_withdraw(&mut escrow, true), Ok(()));
    assert_eq!(fund_escrow(&escrow, &DEPOSITOR, 1000), Err(EscrowError::InvalidStatus));
}
