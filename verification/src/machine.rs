//! The escrow state machine: who may invoke which transition, and when.
//!
//! Each operation validates the caller's identity, the record's status
//! and — for withdrawal — the time gate, then either constructs the new
//! record or hands the surrounding runtime a transfer request to carry
//! out. The runtime reports the transfer's outcome back through
//! [`complete_withdraw`], so a record's status flips to `Completed` only
//! after the transfer has already committed.

use vstd::prelude::*;

use crate::codec::{lemma_encode_decode, spec_decode, spec_encode};
use crate::errors::EscrowError;
use crate::record::{lemma_escrow_view_wf, Escrow, EscrowStatus, EscrowView, Identity};

verus! {

/// A request to the external transfer collaborator: move `amount` tokens
/// from the depositor's asset account into the custody asset account,
/// authorized by the depositor's own signature — the depositor still owns
/// the funds at this point.
#[derive(Clone, Copy, PartialEq, Eq, Debug)]
pub struct FundRequest {
    pub depositor: Identity,
    pub amount: u64,
}

/// A request to the external transfer collaborator: move the full locked
/// `amount` from the custody asset account to the recipient's asset
/// account. The authority is the program-derived signature regenerated
/// from the custody seed material (the depositor identity) and `bump` —
/// no human-held key can produce it.
#[derive(Clone, Copy, PartialEq, Eq, Debug)]
pub struct WithdrawRequest {
    pub depositor: Identity,
    pub recipient: Identity,
    pub amount: u64,
    pub bump: u8,
}

/// The record `create` allocates: the given parties and amount, the time
/// gate at `now + expiry_offset`, the derivation bump, and status
/// `Pending`.
pub open spec fn spec_create(
    depositor: Identity,
    recipient: Identity,
    amount: u64,
    expiry_offset: i64,
    now: i64,
    bump: u8,
) -> Escrow
    recommends
        i64::MIN <= now + expiry_offset <= i64::MAX,
{
    Escrow {
        depositor,
        recipient,
        amount,
        expiry: (now + expiry_offset) as i64,
        status: EscrowStatus::Pending,
        bump,
    }
}

/// What `fund` decides, given the record and the caller: the record must
/// still be `Pending` and only the recorded depositor may fund it.
pub open spec fn spec_fund(e: Escrow, caller: Identity, amount: u64) -> Result<
    FundRequest,
    EscrowError,
> {
    if e.status != EscrowStatus::Pending {
        Err(EscrowError::InvalidStatus)
    } else if caller@ != e.depositor@ {
        Err(EscrowError::Unauthorized)
    } else {
        Ok(FundRequest { depositor: e.depositor, amount })
    }
}

/// What `withdraw` decides, given the record, the caller and the clock
/// reading: only the recorded recipient may withdraw, only out of a
/// `Pending` record, and only once the time gate has opened
/// (`now >= expiry`).
pub open spec fn spec_withdraw(e: Escrow, caller: Identity, now: i64) -> Result<
    WithdrawRequest,
    EscrowError,
> {
    if caller@ != e.recipient@ {
        Err(EscrowError::Unauthorized)
    } else if e.status != EscrowStatus::Pending {
        Err(EscrowError::InvalidStatus)
    } else if now < e.expiry {
        Err(EscrowError::EscrowNotReady)
    } else {
        Ok(
            WithdrawRequest {
                depositor: e.depositor,
                recipient: e.recipient,
                amount: e.amount,
                bump: e.bump,
            },
        )
    }
}

/// The record after the transfer collaborator reports back: `Completed`
/// on success, untouched on failure.
pub open spec fn spec_complete(e: Escrow, transfer_succeeded: bool) -> Escrow {
    if transfer_succeeded {
        Escrow { status: EscrowStatus::Completed, ..e }
    } else {
        e
    }
}

/// Creates a new escrow record.
///
/// `now` is the trusted clock reading and `bump` the custody account's
/// derivation nonce; `address_occupied` reports whether the allocation
/// collaborator found the derived address already taken (a replay of the
/// same depositor and seed material before the prior escrow closed), in
/// which case nothing is allocated.
pub fn create_escrow(
    depositor: Identity,
    recipient: Identity,
    amount: u64,
    expiry_offset: i64,
    now: i64,
    bump: u8,
    address_occupied: bool,
) -> (r: Result<Escrow, EscrowError>)
    requires
        i64::MIN <= now + expiry_offset <= i64::MAX,
    ensures
        address_occupied ==> r == Err::<Escrow, EscrowError>(EscrowError::AllocationFailed),
        !address_occupied ==> r == Ok::<Escrow, EscrowError>(
            spec_create(depositor, recipient, amount, expiry_offset, now, bump),
        ),
{
    if address_occupied {
        return Err(EscrowError::AllocationFailed);
    }
    Ok(
        Escrow {
            depositor,
            recipient,
            amount,
            expiry: now + expiry_offset,
            status: EscrowStatus::Pending,
            bump,
        },
    )
}

/// Validates a funding attempt and, when it is legal, hands back the
/// transfer request the runtime must carry out. The record itself is not
/// mutated: the locked amount was fixed at creation.
pub fn fund_escrow(escrow: &Escrow, caller: &Identity, amount: u64) -> (r: Result<
    FundRequest,
    EscrowError,
>)
    ensures
        r == spec_fund(*escrow, *caller, amount),
{
    if !matches!(escrow.status, EscrowStatus::Pending) {
        return Err(EscrowError::InvalidStatus);
    }
    if !crate::record::identity_eq(caller, &escrow.depositor) {
        return Err(EscrowError::Unauthorized);
    }
    Ok(FundRequest { depositor: escrow.depositor, amount })
}

/// Validates a withdrawal attempt and, when it is legal, hands back the
/// transfer request the runtime must carry out with the program-derived
/// authority. The record is read, never mutated: its status flips only
/// through [`complete_withdraw`], after the transfer has committed.
pub fn withdraw_escrow(escrow: &Escrow, caller: &Identity, now: i64) -> (r: Result<
    WithdrawRequest,
    EscrowError,
>)
    ensures
        r == spec_withdraw(*escrow, *caller, now),
{
    if !crate::record::identity_eq(caller, &escrow.recipient) {
        return Err(EscrowError::Unauthorized);
    }
    if !matches!(escrow.status, EscrowStatus::Pending) {
        return Err(EscrowError::InvalidStatus);
    }
    if now < escrow.expiry {
        return Err(EscrowError::EscrowNotReady);
    }
    Ok(
        WithdrawRequest {
            depositor: escrow.depositor,
            recipient: escrow.recipient,
            amount: escrow.amount,
            bump: escrow.bump,
        },
    )
}

/// Records the transfer collaborator's outcome for a withdrawal that
/// [`withdraw_escrow`] already authorized: on success the status flips,
/// once and one way, from `Pending` to `Completed`; on failure the whole
/// record is left exactly as it was and the failure is reported.
pub fn complete_withdraw(escrow: &mut Escrow, transfer_succeeded: bool) -> (r: Result<
    (),
    EscrowError,
>)
    requires
        old(escrow).status == EscrowStatus::Pending,
    ensures
        *final(escrow) == spec_complete(*old(escrow), transfer_succeeded),
        transfer_succeeded ==> r == Ok::<(), EscrowError>(()),
        !transfer_succeeded ==> r == Err::<(), EscrowError>(EscrowError::TransferFailed),
{
    if transfer_succeeded {
        escrow.status = EscrowStatus::Completed;
        Ok(())
    } else {
        Err(EscrowError::TransferFailed)
    }
}

/// Law: creating an escrow and decoding its persisted form yields the
/// record back — status `Pending`, expiry `now + expiry_offset`, and the
/// original parties, amount and bump.
pub proof fn lemma_create_round_trip(
    depositor: Identity,
    recipient: Identity,
    amount: u64,
    expiry_offset: i64,
    now: i64,
    bump: u8,
)
    requires
        i64::MIN <= now + expiry_offset <= i64::MAX,
    ensures
        ({
            let e = spec_create(depositor, recipient, amount, expiry_offset, now, bump);
            &&& spec_decode(spec_encode(e@)) == Ok::<EscrowView, EscrowError>(e@)
            &&& e.status == EscrowStatus::Pending
            &&& e.expiry == now + expiry_offset
            &&& e.depositor == depositor
            &&& e.recipient == recipient
            &&& e.amount == amount
            &&& e.bump == bump
        }),
{
    let e = spec_create(depositor, recipient, amount, expiry_offset, now, bump);
    lemma_escrow_view_wf(e);
    lemma_encode_decode(e@);
}

/// Law: a caller other than the recorded recipient can never withdraw —
/// the attempt fails with `Unauthorized` whatever the record's status or
/// the clock reading. Nothing is mutated: [`withdraw_escrow`] only reads
/// the record, and no transfer request is issued.
pub proof fn lemma_withdraw_unauthorized(e: Escrow, caller: Identity, now: i64)
    requires
        caller@ != e.recipient@,
    ensures
        spec_withdraw(e, caller, now) == Err::<WithdrawRequest, EscrowError>(
            EscrowError::Unauthorized,
        ),
{
}

/// Law: before the time gate opens, a withdrawal by the recipient of a
/// pending record fails with `EscrowNotReady`. Nothing is mutated and no
/// transfer request is issued, so the custody balance stays put.
pub proof fn lemma_withdraw_not_ready(e: Escrow, caller: Identity, now: i64)
    requires
        caller@ == e.recipient@,
        e.status == EscrowStatus::Pending,
        now < e.expiry,
    ensures
        spec_withdraw(e, caller, now) == Err::<WithdrawRequest, EscrowError>(
            EscrowError::EscrowNotReady,
        ),
{
}

/// Law: no second withdrawal. Once the expiry has elapsed, the recipient's
/// withdrawal of a pending record is authorized for the full locked
/// amount, and after the transfer commits the record is `Completed`;
/// every further withdrawal attempt against it fails — with
/// `InvalidStatus` for the recipient, `Unauthorized` for anyone else.
pub proof fn lemma_no_double_withdraw(e: Escrow, now: i64, second_caller: Identity, second_now: i64)
    requires
        e.status == EscrowStatus::Pending,
        now >= e.expiry,
    ensures
        ({
            let first = spec_withdraw(e, e.recipient, now);
            let settled = spec_complete(e, true);
            &&& first is Ok
            &&& first->Ok_0.amount == e.amount
            &&& first->Ok_0.recipient == e.recipient
            &&& settled.status == EscrowStatus::Completed
            &&& spec_withdraw(settled, second_caller, second_now) is Err
            &&& second_caller@ == e.recipient@ ==> spec_withdraw(settled, second_caller, second_now)
                == Err::<WithdrawRequest, EscrowError>(EscrowError::InvalidStatus)
        }),
{
}

/// Law: transitions are one way and touch nothing but the status. From
/// `Pending` the record either stays `Pending` (the transfer failed) or
/// settles at `Completed`; the parties, the amount, the expiry and the
/// bump never change.
pub proof fn lemma_transitions_one_way(e: Escrow, transfer_succeeded: bool)
    requires
        e.status == EscrowStatus::Pending,
    ensures
        ({
            let settled = spec_complete(e, transfer_succeeded);
            &&& settled.depositor == e.depositor
            &&& settled.recipient == e.recipient
            &&& settled.amount == e.amount
            &&& settled.expiry == e.expiry
            &&& settled.bump == e.bump
            &&& settled.status == EscrowStatus::Pending || settled.status
                == EscrowStatus::Completed
        }),
{
}

} // verus!
