use vstd::prelude::*;
use crate::custody::{Balances, moved_in, paid_out};
use crate::error::EscrowError;
use crate::escrow::{
    EscrowView,
    after_approve,
    after_dispute,
    after_fund,
    after_refund,
    after_submit,
    after_withdraw,
    approve_error,
    custody_covers,
    dispute_error,
    fund_error,
    initial_record,
    initialize_error,
    refund_error,
    submit_error,
    withdraw_error,
};
use crate::status::{EscrowStatus, is_edge};
use crate::timeout::deadline_of;
use crate::work_link::work_link_result;

verus! {

/// No operation that moves value can be repeated to move the same amount
/// twice: right after a deposit another deposit is refused, and right after
/// a payment to the freelancer or a refund to the client, neither payment
/// can be made again, whoever calls and whenever.
pub proof fn lemma_no_repeated_transfer(
    a: EscrowView,
    b: Balances,
    payer: Seq<u8>,
    payee: Seq<u8>,
    caller: Seq<u8>,
    t: i64,
    later: i64,
)
    ensures
        fund_error(a, b, payer) is None ==> fund_error(
            after_fund(a, t),
            moved_in(b, a.amount),
            caller,
        ) is Some,
        withdraw_error(a, payee) is None ==> withdraw_error(after_withdraw(a, t), caller) is Some
            && refund_error(after_withdraw(a, t), caller, later) is Some,
        refund_error(a, payer, t) is None ==> refund_error(after_refund(a, t), caller, later) is Some
            && withdraw_error(after_refund(a, t), caller) is Some,
{
}

/// Every accepted operation moves the status along one edge of the
/// lifecycle graph.
pub proof fn lemma_accepted_operations_follow_edges(
    a: EscrowView,
    b: Balances,
    caller: Seq<u8>,
    link: Seq<char>,
    stored: Seq<char>,
    now: i64,
)
    ensures
        fund_error(a, b, caller) is None ==> is_edge(a.status, after_fund(a, now).status),
        submit_error(a, caller, link) is None ==> is_edge(
            a.status,
            after_submit(a, stored, now).status,
        ),
        approve_error(a, caller) is None ==> is_edge(a.status, after_approve(a, now).status),
        withdraw_error(a, caller) is None ==> is_edge(a.status, after_withdraw(a, now).status),
        dispute_error(a, caller) is None ==> is_edge(a.status, after_dispute(a, now).status),
        refund_error(a, caller, now) is None ==> is_edge(a.status, after_refund(a, now).status),
{
}

/// A refund requested right after funding, before the timeout and without a
/// dispute, is refused with `InvalidStatus`.
pub proof fn lemma_refund_before_timeout_refused(
    a: EscrowView,
    b: Balances,
    client: Seq<u8>,
    funded: i64,
    now: i64,
)
    requires
        fund_error(a, b, client) is None,
        deadline_of(funded, a.dispute_timeout_days) is Some,
        now < funded + a.dispute_timeout_days * 86400,
    ensures
        refund_error(after_fund(a, funded), client, now) == Some(EscrowError::InvalidStatus),
{
}

/// A funded record may be refunded from its deadline on, the deadline itself
/// included, and not one second earlier.
pub proof fn lemma_refund_deadline_inclusive(a: EscrowView, client: Seq<u8>)
    requires
        a.status == EscrowStatus::Funded,
        client == a.client,
        a.funded_at > 0,
        deadline_of(a.funded_at, a.dispute_timeout_days) is Some,
    ensures
        refund_error(a, client, deadline_of(a.funded_at, a.dispute_timeout_days)->0) is None,
        refund_error(a, client, (deadline_of(a.funded_at, a.dispute_timeout_days)->0 - 1) as i64)
            == Some(EscrowError::InvalidStatus),
{
}

/// Create, fund, submit, approve and withdraw, at non-decreasing times:
/// the payment leaves custody with exactly the amount it received, the
/// freelancer gains the amount, the record is complete, and its five
/// timestamps are set in order.
pub proof fn lemma_full_cycle(
    client: Seq<u8>,
    freelancer: Seq<u8>,
    amount: u64,
    days: u8,
    bump: u8,
    b: Balances,
    link: Seq<char>,
    t1: i64,
    t2: i64,
    t3: i64,
    t4: i64,
    t5: i64,
)
    requires
        initialize_error(amount, days) is None,
        b.wf(),
        b.client >= amount,
        work_link_result(link) is Ok,
        client.len() == 32,
        freelancer.len() == 32,
        0 < t1 <= t2 <= t3 <= t4 <= t5,
    ensures
        ({
            let a0 = initial_record(client, freelancer, amount, days, bump, t1);
            let a1 = after_fund(a0, t2);
            let b1 = moved_in(b, amount);
            let stored = work_link_result(link)->Ok_0;
            let a2 = after_submit(a1, stored, t3);
            let a3 = after_approve(a2, t4);
            let a4 = after_withdraw(a3, t5);
            let b2 = paid_out(b1, amount);
            &&& fund_error(a0, b, client) is None
            &&& submit_error(a1, freelancer, link) is None
            &&& approve_error(a2, client) is None
            &&& withdraw_error(a3, freelancer) is None
            &&& custody_covers(a3, b1)
            &&& b2.custody == b1.custody - amount
            &&& b2.custody == b.custody
            &&& b2.freelancer == b.freelancer + amount
            &&& b2.client == b.client - amount
            &&& a4.status == EscrowStatus::Complete
            &&& 0 < a4.created_at <= a4.funded_at <= a4.submitted_at <= a4.approved_at
                <= a4.completed_at
        }),
{
}

} // verus!
