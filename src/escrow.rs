use vstd::prelude::*;
use vstd::utf8::encode_utf8;
use crate::custody::{
    Balances,
    custody_seeds_of,
    derive_custody_address,
    moved_in,
    paid_back,
    paid_out,
    program_address_of,
};
use crate::error::EscrowError;
use crate::identity::Identity;
use crate::status::{EscrowStatus, holds_custody, is_edge};
use crate::timeout::{deadline_of, funding_timeout_passed, timeout_elapsed};
use crate::work_link::{validate_work_link, work_link_result};

verus! {

/// The shortest dispute timeout, in days.
pub const MIN_TIMEOUT_DAYS: u8 = 1;

/// The longest dispute timeout, in days.
pub const MAX_TIMEOUT_DAYS: u8 = 90;

/// One escrow between a client and a freelancer.
#[derive(Clone, Debug)]
pub struct EscrowAccount {
    pub client: Identity,
    pub freelancer: Identity,
    pub amount: u64,
    pub status: EscrowStatus,
    pub work_link: String,
    pub bump: u8,
    pub created_at: i64,
    pub funded_at: i64,
    pub submitted_at: i64,
    pub approved_at: i64,
    pub completed_at: i64,
    pub disputed_at: i64,
    pub refunded_at: i64,
    pub dispute_timeout_days: u8,
}

/// The mathematical model of an `EscrowAccount`.
pub struct EscrowView {
    pub client: Seq<u8>,
    pub freelancer: Seq<u8>,
    pub amount: u64,
    pub status: EscrowStatus,
    pub work_link: Seq<char>,
    pub bump: u8,
    pub created_at: i64,
    pub funded_at: i64,
    pub submitted_at: i64,
    pub approved_at: i64,
    pub completed_at: i64,
    pub disputed_at: i64,
    pub refunded_at: i64,
    pub dispute_timeout_days: u8,
}

impl View for EscrowAccount {
    type V = EscrowView;

    open spec fn view(&self) -> EscrowView {
        EscrowView {
            client: self.client@,
            freelancer: self.freelancer@,
            amount: self.amount,
            status: self.status,
            work_link: self.work_link@,
            bump: self.bump,
            created_at: self.created_at,
            funded_at: self.funded_at,
            submitted_at: self.submitted_at,
            approved_at: self.approved_at,
            completed_at: self.completed_at,
            disputed_at: self.disputed_at,
            refunded_at: self.refunded_at,
            dispute_timeout_days: self.dispute_timeout_days,
        }
    }
}

impl EscrowView {
    /// A positive amount, a timeout of one to ninety days, and a work
    /// reference within its caps.
    pub open spec fn wf(self) -> bool {
        &&& self.amount > 0
        &&& MIN_TIMEOUT_DAYS <= self.dispute_timeout_days <= MAX_TIMEOUT_DAYS
        &&& self.work_link.len() <= 200
        &&& encode_utf8(self.work_link).len() <= 600
    }
}

/// While the record's status says the amount is in custody, the custody slot
/// holds at least that amount.
pub open spec fn custody_covers(a: EscrowView, b: Balances) -> bool {
    &&& b.wf()
    &&& holds_custody(a.status) ==> b.custody >= a.amount
}

/// Emitted when a record is created.
#[derive(Clone, Debug)]
pub struct EscrowInitialized {
    pub escrow_key: Identity,
    pub client: Identity,
    pub freelancer: Identity,
    pub amount: u64,
}

/// Emitted when the client's deposit reaches custody.
#[derive(Clone, Debug)]
pub struct FundsDeposited {
    pub escrow_key: Identity,
    pub amount: u64,
}

/// Emitted when the freelancer submits work.
#[derive(Clone, Debug)]
pub struct WorkSubmitted {
    pub escrow_key: Identity,
    pub freelancer: Identity,
    pub work_link: String,
}

/// Emitted when the client approves the submitted work.
#[derive(Clone, Debug)]
pub struct SubmissionApproved {
    pub escrow_key: Identity,
    pub client: Identity,
}

/// Emitted when the freelancer is paid.
#[derive(Clone, Debug)]
pub struct PaymentWithdrawn {
    pub escrow_key: Identity,
    pub freelancer: Identity,
    pub amount: u64,
}

/// Emitted when the client opens a dispute.
#[derive(Clone, Debug)]
pub struct DisputeInitiated {
    pub escrow_key: Identity,
    pub initiator: Identity,
}

/// Emitted when the client is refunded.
#[derive(Clone, Debug)]
pub struct ClientRefunded {
    pub escrow_key: Identity,
    pub client: Identity,
    pub amount: u64,
}

/// The operations on an existing record.
#[derive(Clone, Copy, Debug, PartialEq, Eq, Structural)]
pub enum Operation {
    Fund,
    Submit,
    Approve,
    Withdraw,
    Dispute,
    Refund,
}

/// The party an operation requires.
#[derive(Clone, Copy, Debug, PartialEq, Eq, Structural)]
pub enum Role {
    Client,
    Freelancer,
}

pub open spec fn role_of(op: Operation) -> Role {
    match op {
        Operation::Submit | Operation::Withdraw => Role::Freelancer,
        _ => Role::Client,
    }
}

/// Whether `caller` is the party of record `a` that `op` requires.
pub open spec fn is_authorized(op: Operation, a: EscrowView, caller: Seq<u8>) -> bool {
    match role_of(op) {
        Role::Client => caller == a.client,
        Role::Freelancer => caller == a.freelancer,
    }
}

pub fn required_role(op: Operation) -> (r: Role)
    ensures
        r == role_of(op),
{
    match op {
        Operation::Submit | Operation::Withdraw => Role::Freelancer,
        _ => Role::Client,
    }
}

/// The authorization guard: whether `caller` may perform `op` on `escrow`.
pub fn authorized(op: Operation, escrow: &EscrowAccount, caller: &Identity) -> (r: bool)
    ensures
        r == is_authorized(op, escrow@, caller@),
{
    match required_role(op) {
        Role::Client => caller.same_as(&escrow.client),
        Role::Freelancer => caller.same_as(&escrow.freelancer),
    }
}

/// What `initialize_escrow` refuses, if anything.
pub open spec fn initialize_error(amount: u64, days: u8) -> Option<EscrowError> {
    if amount == 0 {
        Some(EscrowError::InvalidAmount)
    } else if !(MIN_TIMEOUT_DAYS <= days <= MAX_TIMEOUT_DAYS) {
        Some(EscrowError::InvalidTimeout)
    } else {
        None
    }
}

/// The record that `initialize_escrow` creates.
pub open spec fn initial_record(
    client: Seq<u8>,
    freelancer: Seq<u8>,
    amount: u64,
    days: u8,
    bump: u8,
    now: i64,
) -> EscrowView {
    EscrowView {
        client,
        freelancer,
        amount,
        status: EscrowStatus::Pending,
        work_link: Seq::empty(),
        bump,
        created_at: now,
        funded_at: 0,
        submitted_at: 0,
        approved_at: 0,
        completed_at: 0,
        disputed_at: 0,
        refunded_at: 0,
        dispute_timeout_days: days,
    }
}

/// Creates the record of `client` and `freelancer`, pending funding. A zero
/// amount is `InvalidAmount`; a timeout outside one to ninety days is
/// `InvalidTimeout`.
pub fn initialize_escrow(
    client: &Identity,
    amount: u64,
    freelancer: &Identity,
    dispute_timeout_days: u8,
    bump: u8,
    escrow_key: &Identity,
    now: i64,
) -> (r: Result<(EscrowAccount, EscrowInitialized), EscrowError>)
    ensures
        match initialize_error(amount, dispute_timeout_days) {
            Some(e) => r matches Err(f) && f == e,
            None => r matches Ok((a, ev)) && a@ == initial_record(
                client@,
                freelancer@,
                amount,
                dispute_timeout_days,
                bump,
                now,
            ) && ev == (EscrowInitialized {
                escrow_key: *escrow_key,
                client: *client,
                freelancer: *freelancer,
                amount,
            }),
        },
        r matches Ok((a, _)) ==> a@.wf(),
{
    if amount == 0 {
        return Err(EscrowError::InvalidAmount);
    }
    if dispute_timeout_days < MIN_TIMEOUT_DAYS || dispute_timeout_days > MAX_TIMEOUT_DAYS {
        return Err(EscrowError::InvalidTimeout);
    }
    let a = EscrowAccount {
        client: *client,
        freelancer: *freelancer,
        amount,
        status: EscrowStatus::Pending,
        work_link: String::new(),
        bump,
        created_at: now,
        funded_at: 0,
        submitted_at: 0,
        approved_at: 0,
        completed_at: 0,
        disputed_at: 0,
        refunded_at: 0,
        dispute_timeout_days,
    };
    proof {
        assert(encode_utf8(a.work_link@) =~= Seq::<u8>::empty());
    }
    let ev = EscrowInitialized {
        escrow_key: *escrow_key,
        client: *client,
        freelancer: *freelancer,
        amount,
    };
    Ok((a, ev))
}

/// What `deposit_funds` refuses, if anything.
pub open spec fn fund_error(a: EscrowView, b: Balances, caller: Seq<u8>) -> Option<EscrowError> {
    if !is_authorized(Operation::Fund, a, caller) {
        Some(EscrowError::Unauthorized)
    } else if a.status != EscrowStatus::Pending {
        Some(EscrowError::InvalidStatus)
    } else if b.client < a.amount {
        Some(EscrowError::InsufficientFunds)
    } else {
        None
    }
}

pub open spec fn after_fund(a: EscrowView, now: i64) -> EscrowView {
    EscrowView { status: EscrowStatus::Funded, funded_at: now, ..a }
}

/// The client moves the amount into custody: `Pending` becomes `Funded`.
pub fn deposit_funds(
    escrow: &mut EscrowAccount,
    balances: &mut Balances,
    caller: &Identity,
    escrow_key: &Identity,
    now: i64,
) -> (r: Result<FundsDeposited, EscrowError>)
    requires
        custody_covers(old(escrow)@, *old(balances)),
    ensures
        match fund_error(old(escrow)@, *old(balances), caller@) {
            Some(e) => r matches Err(f) && f == e && final(escrow)@ == old(escrow)@
                && *final(balances) == *old(balances),
            None => r matches Ok(ev) && ev == (FundsDeposited {
                escrow_key: *escrow_key,
                amount: old(escrow).amount,
            }) && final(escrow)@ == after_fund(old(escrow)@, now) && *final(balances) == moved_in(
                *old(balances),
                old(escrow).amount,
            ),
        },
        custody_covers(final(escrow)@, *final(balances)),
        old(escrow)@.wf() ==> final(escrow)@.wf(),
        r is Ok ==> is_edge(old(escrow)@.status, final(escrow)@.status),
{
    if !authorized(Operation::Fund, escrow, caller) {
        return Err(EscrowError::Unauthorized);
    }
    if escrow.status != EscrowStatus::Pending {
        return Err(EscrowError::InvalidStatus);
    }
    let amount = escrow.amount;
    match balances.deposit(amount) {
        Ok(()) => {},
        Err(e) => {
            return Err(e);
        },
    }
    escrow.status = EscrowStatus::Funded;
    escrow.funded_at = now;
    Ok(FundsDeposited { escrow_key: *escrow_key, amount })
}

/// What `submit_work` refuses, if anything.
pub open spec fn submit_error(a: EscrowView, caller: Seq<u8>, link: Seq<char>) -> Option<EscrowError> {
    if !is_authorized(Operation::Submit, a, caller) {
        Some(EscrowError::Unauthorized)
    } else if a.status != EscrowStatus::Funded {
        Some(EscrowError::InvalidStatus)
    } else {
        match work_link_result(link) {
            Err(e) => Some(e),
            Ok(_) => None,
        }
    }
}

pub open spec fn after_submit(a: EscrowView, stored: Seq<char>, now: i64) -> EscrowView {
    EscrowView { status: EscrowStatus::Submitted, work_link: stored, submitted_at: now, ..a }
}

/// The freelancer attaches a reference to the delivered work: `Funded`
/// becomes `Submitted`. The reference is stored trimmed; see
/// `validate_work_link` for its caps.
pub fn submit_work(
    escrow: &mut EscrowAccount,
    caller: &Identity,
    work_link: &str,
    escrow_key: &Identity,
    now: i64,
) -> (r: Result<WorkSubmitted, EscrowError>)
    ensures
        match submit_error(old(escrow)@, caller@, work_link@) {
            Some(e) => r matches Err(f) && f == e && final(escrow)@ == old(escrow)@,
            None => r matches Ok(ev) && ev.escrow_key == *escrow_key && ev.freelancer == *caller
                && work_link_result(work_link@) == Ok::<Seq<char>, EscrowError>(ev.work_link@)
                && final(escrow)@ == after_submit(old(escrow)@, ev.work_link@, now),
        },
        old(escrow)@.wf() ==> final(escrow)@.wf(),
        forall|b: Balances| custody_covers(old(escrow)@, b) ==> custody_covers(final(escrow)@, b),
        r is Ok ==> is_edge(old(escrow)@.status, final(escrow)@.status),
{
    if !authorized(Operation::Submit, escrow, caller) {
        return Err(EscrowError::Unauthorized);
    }
    if escrow.status != EscrowStatus::Funded {
        return Err(EscrowError::InvalidStatus);
    }
    let stored = match validate_work_link(work_link) {
        Ok(t) => t,
        Err(e) => {
            return Err(e);
        },
    };
    let shown = stored.clone();
    escrow.work_link = stored;
    escrow.status = EscrowStatus::Submitted;
    escrow.submitted_at = now;
    Ok(WorkSubmitted { escrow_key: *escrow_key, freelancer: *caller, work_link: shown })
}

/// What `approve_submission` refuses, if anything.
pub open spec fn approve_error(a: EscrowView, caller: Seq<u8>) -> Option<EscrowError> {
    if !is_authorized(Operation::Approve, a, caller) {
        Some(EscrowError::Unauthorized)
    } else if a.status != EscrowStatus::Submitted {
        Some(EscrowError::InvalidStatus)
    } else {
        None
    }
}

pub open spec fn after_approve(a: EscrowView, now: i64) -> EscrowView {
    EscrowView { status: EscrowStatus::Approved, approved_at: now, ..a }
}

/// The client accepts the submitted work: `Submitted` becomes `Approved`.
pub fn approve_submission(
    escrow: &mut EscrowAccount,
    caller: &Identity,
    escrow_key: &Identity,
    now: i64,
) -> (r: Result<SubmissionApproved, EscrowError>)
    ensures
        match approve_error(old(escrow)@, caller@) {
            Some(e) => r matches Err(f) && f == e && final(escrow)@ == old(escrow)@,
            None => r matches Ok(ev) && ev == (SubmissionApproved {
                escrow_key: *escrow_key,
                client: *caller,
            }) && final(escrow)@ == after_approve(old(escrow)@, now),
        },
        old(escrow)@.wf() ==> final(escrow)@.wf(),
        forall|b: Balances| custody_covers(old(escrow)@, b) ==> custody_covers(final(escrow)@, b),
        r is Ok ==> is_edge(old(escrow)@.status, final(escrow)@.status),
{
    if !authorized(Operation::Approve, escrow, caller) {
        return Err(EscrowError::Unauthorized);
    }
    if escrow.status != EscrowStatus::Submitted {
        return Err(EscrowError::InvalidStatus);
    }
    escrow.status = EscrowStatus::Approved;
    escrow.approved_at = now;
    Ok(SubmissionApproved { escrow_key: *escrow_key, client: *caller })
}

/// What `withdraw_payment` refuses, if anything.
pub open spec fn withdraw_error(a: EscrowView, caller: Seq<u8>) -> Option<EscrowError> {
    if !is_authorized(Operation::Withdraw, a, caller) {
        Some(EscrowError::Unauthorized)
    } else if a.status != EscrowStatus::Approved {
        Some(EscrowError::InvalidStatus)
    } else {
        None
    }
}

pub open spec fn after_withdraw(a: EscrowView, now: i64) -> EscrowView {
    EscrowView { status: EscrowStatus::Complete, completed_at: now, ..a }
}

/// The freelancer takes the approved payment out of custody: `Approved`
/// becomes `Complete`.
pub fn withdraw_payment(
    escrow: &mut EscrowAccount,
    balances: &mut Balances,
    caller: &Identity,
    escrow_key: &Identity,
    now: i64,
) -> (r: Result<PaymentWithdrawn, EscrowError>)
    requires
        custody_covers(old(escrow)@, *old(balances)),
    ensures
        caller@ != old(escrow)@.freelancer ==> r matches Err(EscrowError::Unauthorized),
        match withdraw_error(old(escrow)@, caller@) {
            Some(e) => r matches Err(f) && f == e && final(escrow)@ == old(escrow)@
                && *final(balances) == *old(balances),
            None => r matches Ok(ev) && ev == (PaymentWithdrawn {
                escrow_key: *escrow_key,
                freelancer: *caller,
                amount: old(escrow).amount,
            }) && final(escrow)@ == after_withdraw(old(escrow)@, now) && *final(balances)
                == paid_out(*old(balances), old(escrow).amount),
        },
        custody_covers(final(escrow)@, *final(balances)),
        old(escrow)@.wf() ==> final(escrow)@.wf(),
        r is Ok ==> is_edge(old(escrow)@.status, final(escrow)@.status),
{
    if !authorized(Operation::Withdraw, escrow, caller) {
        return Err(EscrowError::Unauthorized);
    }
    if escrow.status != EscrowStatus::Approved {
        return Err(EscrowError::InvalidStatus);
    }
    let amount = escrow.amount;
    balances.release_to_freelancer(amount);
    escrow.status = EscrowStatus::Complete;
    escrow.completed_at = now;
    Ok(PaymentWithdrawn { escrow_key: *escrow_key, freelancer: *caller, amount })
}

/// What `initiate_dispute` refuses, if anything.
pub open spec fn dispute_error(a: EscrowView, caller: Seq<u8>) -> Option<EscrowError> {
    if !is_authorized(Operation::Dispute, a, caller) {
        Some(EscrowError::Unauthorized)
    } else if a.status != EscrowStatus::Funded && a.status != EscrowStatus::Submitted {
        Some(EscrowError::InvalidStatus)
    } else {
        None
    }
}

pub open spec fn after_dispute(a: EscrowView, now: i64) -> EscrowView {
    EscrowView { status: EscrowStatus::Disputed, disputed_at: now, ..a }
}

/// The client contests a funded or submitted escrow: it becomes `Disputed`.
pub fn initiate_dispute(
    escrow: &mut EscrowAccount,
    caller: &Identity,
    escrow_key: &Identity,
    now: i64,
) -> (r: Result<DisputeInitiated, EscrowError>)
    ensures
        match dispute_error(old(escrow)@, caller@) {
            Some(e) => r matches Err(f) && f == e && final(escrow)@ == old(escrow)@,
            None => r matches Ok(ev) && ev == (DisputeInitiated {
                escrow_key: *escrow_key,
                initiator: *caller,
            }) && final(escrow)@ == after_dispute(old(escrow)@, now),
        },
        old(escrow)@.wf() ==> final(escrow)@.wf(),
        forall|b: Balances| custody_covers(old(escrow)@, b) ==> custody_covers(final(escrow)@, b),
        r is Ok ==> is_edge(old(escrow)@.status, final(escrow)@.status),
{
    if !authorized(Operation::Dispute, escrow, caller) {
        return Err(EscrowError::Unauthorized);
    }
    if escrow.status != EscrowStatus::Funded && escrow.status != EscrowStatus::Submitted {
        return Err(EscrowError::InvalidStatus);
    }
    escrow.status = EscrowStatus::Disputed;
    escrow.disputed_at = now;
    Ok(DisputeInitiated { escrow_key: *escrow_key, initiator: *caller })
}

/// What `refund_client` refuses at time `now`, if anything. A disputed
/// record may always be refunded; a funded one once its timeout has elapsed.
pub open spec fn refund_error(a: EscrowView, caller: Seq<u8>, now: i64) -> Option<EscrowError> {
    if !is_authorized(Operation::Refund, a, caller) {
        Some(EscrowError::Unauthorized)
    } else if a.status == EscrowStatus::Disputed {
        None
    } else if a.status != EscrowStatus::Funded {
        Some(EscrowError::InvalidStatus)
    } else if a.funded_at > 0 && deadline_of(a.funded_at, a.dispute_timeout_days) is None {
        Some(EscrowError::InvalidAmount)
    } else if timeout_elapsed(a.funded_at, a.dispute_timeout_days, now) {
        None
    } else {
        Some(EscrowError::InvalidStatus)
    }
}

pub open spec fn after_refund(a: EscrowView, now: i64) -> EscrowView {
    EscrowView { status: EscrowStatus::Refunded, refunded_at: now, ..a }
}

/// The client takes the amount back out of custody: a `Disputed` record, or
/// a `Funded` one whose timeout has elapsed, becomes `Refunded`.
pub fn refund_client(
    escrow: &mut EscrowAccount,
    balances: &mut Balances,
    caller: &Identity,
    escrow_key: &Identity,
    now: i64,
) -> (r: Result<ClientRefunded, EscrowError>)
    requires
        custody_covers(old(escrow)@, *old(balances)),
    ensures
        match refund_error(old(escrow)@, caller@, now) {
            Some(e) => r matches Err(f) && f == e && final(escrow)@ == old(escrow)@
                && *final(balances) == *old(balances),
            None => r matches Ok(ev) && ev == (ClientRefunded {
                escrow_key: *escrow_key,
                client: *caller,
                amount: old(escrow).amount,
            }) && final(escrow)@ == after_refund(old(escrow)@, now) && *final(balances)
                == paid_back(*old(balances), old(escrow).amount),
        },
        custody_covers(final(escrow)@, *final(balances)),
        old(escrow)@.wf() ==> final(escrow)@.wf(),
        r is Ok ==> is_edge(old(escrow)@.status, final(escrow)@.status),
{
    if !authorized(Operation::Refund, escrow, caller) {
        return Err(EscrowError::Unauthorized);
    }
    if escrow.status != EscrowStatus::Disputed {
        if escrow.status != EscrowStatus::Funded {
            return Err(EscrowError::InvalidStatus);
        }
        match funding_timeout_passed(escrow.funded_at, escrow.dispute_timeout_days, now) {
            Ok(true) => {},
            Ok(false) => {
                return Err(EscrowError::InvalidStatus);
            },
            Err(e) => {
                return Err(e);
            },
        }
    }
    let amount = escrow.amount;
    balances.return_to_client(amount);
    escrow.status = EscrowStatus::Refunded;
    escrow.refunded_at = now;
    Ok(ClientRefunded { escrow_key: *escrow_key, client: *caller, amount })
}

/// Whether `address` is the custody slot of `escrow` under `program_id`:
/// the address derived from the record's two parties and its bump.
pub fn is_custody_address(escrow: &EscrowAccount, address: &Identity, program_id: &Identity) -> (r:
    bool)
    ensures
        r == (program_address_of(
            custody_seeds_of(escrow.client@, escrow.freelancer@, escrow.bump),
            program_id@,
        ) == Some(address@)),
{
    match derive_custody_address(&escrow.client, &escrow.freelancer, escrow.bump, program_id) {
        Some(k) => k.same_as(address),
        None => false,
    }
}

} // verus!
