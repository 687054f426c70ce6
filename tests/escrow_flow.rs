use anchor_lang::prelude::Pubkey;
use capstone_freelance_escrow::custody::{derive_custody_address, Balances};
use capstone_freelance_escrow::error::EscrowError;
use capstone_freelance_escrow::escrow::{
    approve_submission, authorized, deposit_funds, initialize_escrow, initiate_dispute,
    is_custody_address, refund_client, submit_work, withdraw_payment, EscrowAccount, Operation,
};
use capstone_freelance_escrow::identity::Identity;
use capstone_freelance_escrow::status::EscrowStatus;
use capstone_freelance_escrow::timeout::{funding_timeout_passed, refund_deadline};
use capstone_freelance_escrow::work_link::{trim, validate_work_link};

const DAY: i64 = 86400;

fn id(b: u8) -> Identity {
    Identity::new([b; 32])
}

fn client() -> Identity {
    id(1)
}

fn freelancer() -> Identity {
    id(2)
}

fn key() -> Identity {
    id(9)
}

fn new_escrow(amount: u64, days: u8) -> EscrowAccount {
    initialize_escrow(&client(), amount, &freelancer(), days, 254, &key(), 100)
        .unwrap()
        .0
}

fn funded(amount: u64, days: u8, at: i64) -> (EscrowAccount, Balances) {
    let mut e = new_escrow(amount, days);
    let mut b = Balances::new(1_000, 0, 0).unwrap();
    deposit_funds(&mut e, &mut b, &client(), &key(), at).unwrap();
    (e, b)
}

#[test]
fn create_sets_pending_record() {
    let (e, ev) =
        initialize_escrow(&client(), 500, &freelancer(), 7, 253, &key(), 1_700_000_000).unwrap();
    assert_eq!(e.status, EscrowStatus::Pending);
    assert_eq!(e.amount, 500);
    assert_eq!(e.client, client());
    assert_eq!(e.freelancer, freelancer());
    assert_eq!(e.bump, 253);
    assert_eq!(e.created_at, 1_700_000_000);
    assert_eq!(e.funded_at, 0);
    assert_eq!(e.work_link, "");
    assert_eq!(e.dispute_timeout_days, 7);
    assert_eq!(ev.amount, 500);
    assert_eq!(ev.escrow_key, key());
    assert_eq!(ev.client, client());
    assert_eq!(ev.freelancer, freelancer());
}

#[test]
fn create_rejects_zero_amount_and_bad_timeouts() {
    let r = initialize_escrow(&client(), 0, &freelancer(), 5, 1, &key(), 1);
    assert_eq!(r.unwrap_err(), EscrowError::InvalidAmount);
    let r = initialize_escrow(&client(), 10, &freelancer(), 0, 1, &key(), 1);
    assert_eq!(r.unwrap_err(), EscrowError::InvalidTimeout);
    let r = initialize_escrow(&client(), 10, &freelancer(), 91, 1, &key(), 1);
    assert_eq!(r.unwrap_err(), EscrowError::InvalidTimeout);
    assert!(initialize_escrow(&client(), 10, &freelancer(), 1, 1, &key(), 1).is_ok());
    assert!(initialize_escrow(&client(), 10, &freelancer(), 90, 1, &key(), 1).is_ok());
}

#[test]
fn fund_moves_amount_into_custody() {
    let mut e = new_escrow(300, 5);
    let mut b = Balances::new(1_000, 0, 0).unwrap();
    let ev = deposit_funds(&mut e, &mut b, &client(), &key(), 200).unwrap();
    assert_eq!(ev.amount, 300);
    assert_eq!(e.status, EscrowStatus::Funded);
    assert_eq!(e.funded_at, 200);
    assert_eq!(b, Balances { client: 700, custody: 300, freelancer: 0 });
}

#[test]
fn fund_with_insufficient_balance_changes_nothing() {
    let mut e = new_escrow(300, 5);
    let mut b = Balances::new(299, 0, 0).unwrap();
    let r = deposit_funds(&mut e, &mut b, &client(), &key(), 200);
    assert_eq!(r.unwrap_err(), EscrowError::InsufficientFunds);
    assert_eq!(e.status, EscrowStatus::Pending);
    assert_eq!(e.funded_at, 0);
    assert_eq!(b, Balances { client: 299, custody: 0, freelancer: 0 });
}

#[test]
fn fund_twice_is_refused() {
    let (mut e, mut b) = funded(300, 5, 200);
    let r = deposit_funds(&mut e, &mut b, &client(), &key(), 300);
    assert_eq!(r.unwrap_err(), EscrowError::InvalidStatus);
    assert_eq!(b.custody, 300);
    assert_eq!(e.funded_at, 200);
}

#[test]
fn fund_by_freelancer_is_unauthorized() {
    let mut e = new_escrow(300, 5);
    let mut b = Balances::new(1_000, 0, 0).unwrap();
    let r = deposit_funds(&mut e, &mut b, &freelancer(), &key(), 200);
    assert_eq!(r.unwrap_err(), EscrowError::Unauthorized);
}

#[test]
fn refund_right_after_fund_is_invalid_status() {
    let (mut e, mut b) = funded(300, 5, 1_000);
    let r = refund_client(&mut e, &mut b, &client(), &key(), 1_000 + DAY);
    assert_eq!(r.unwrap_err(), EscrowError::InvalidStatus);
    assert_eq!(e.status, EscrowStatus::Funded);
    assert_eq!(b.custody, 300);
}

#[test]
fn refund_at_exact_deadline_succeeds() {
    let t: i64 = 1_700_000_000;
    let (mut e, mut b) = funded(300, 5, t);
    let ev = refund_client(&mut e, &mut b, &client(), &key(), t + 5 * 86400).unwrap();
    assert_eq!(ev.amount, 300);
    assert_eq!(e.status, EscrowStatus::Refunded);
    assert_eq!(e.refunded_at, t + 5 * 86400);
    assert_eq!(b, Balances { client: 1_000, custody: 0, freelancer: 0 });
}

#[test]
fn refund_one_second_before_deadline_fails() {
    let t: i64 = 1_700_000_000;
    let (mut e, mut b) = funded(300, 5, t);
    let r = refund_client(&mut e, &mut b, &client(), &key(), t + 5 * 86400 - 1);
    assert_eq!(r.unwrap_err(), EscrowError::InvalidStatus);
    assert_eq!(e.status, EscrowStatus::Funded);
}

#[test]
fn refund_after_dispute_succeeds_and_cannot_repeat() {
    let (mut e, mut b) = funded(300, 5, 1_000);
    let ev = initiate_dispute(&mut e, &client(), &key(), 1_001).unwrap();
    assert_eq!(ev.initiator, client());
    assert_eq!(e.status, EscrowStatus::Disputed);
    assert_eq!(e.disputed_at, 1_001);
    refund_client(&mut e, &mut b, &client(), &key(), 1_002).unwrap();
    assert_eq!(b.client, 1_000);
    let r = refund_client(&mut e, &mut b, &client(), &key(), 1_003);
    assert_eq!(r.unwrap_err(), EscrowError::InvalidStatus);
    let r = withdraw_payment(&mut e, &mut b, &freelancer(), &key(), 1_003);
    assert_eq!(r.unwrap_err(), EscrowError::InvalidStatus);
    assert_eq!(b, Balances { client: 1_000, custody: 0, freelancer: 0 });
}

#[test]
fn refund_with_overflowing_deadline_is_invalid_amount() {
    let (mut e, mut b) = funded(300, 90, i64::MAX - 10);
    let r = refund_client(&mut e, &mut b, &client(), &key(), i64::MAX);
    assert_eq!(r.unwrap_err(), EscrowError::InvalidAmount);
}

#[test]
fn unfunded_record_never_times_out() {
    assert_eq!(funding_timeout_passed(0, 1, i64::MAX), Ok(false));
    assert_eq!(funding_timeout_passed(10, 1, 10 + DAY), Ok(true));
    assert_eq!(funding_timeout_passed(10, 1, 9 + DAY), Ok(false));
    assert_eq!(refund_deadline(10, 2), Ok(10 + 2 * DAY));
    assert_eq!(refund_deadline(i64::MAX, 1), Err(EscrowError::InvalidAmount));
}

#[test]
fn dispute_from_approved_is_refused() {
    let (mut e, _b) = funded(300, 5, 1_000);
    submit_work(&mut e, &freelancer(), "https://example.org/w", &key(), 1_001).unwrap();
    approve_submission(&mut e, &client(), &key(), 1_002).unwrap();
    let r = initiate_dispute(&mut e, &client(), &key(), 1_003);
    assert_eq!(r.unwrap_err(), EscrowError::InvalidStatus);
    assert_eq!(e.status, EscrowStatus::Approved);
}

#[test]
fn dispute_by_freelancer_is_unauthorized() {
    let (mut e, _b) = funded(300, 5, 1_000);
    let r = initiate_dispute(&mut e, &freelancer(), &key(), 1_001);
    assert_eq!(r.unwrap_err(), EscrowError::Unauthorized);
}

#[test]
fn submit_with_201_characters_is_too_long() {
    let (mut e, _b) = funded(300, 5, 1_000);
    let link = "a".repeat(201);
    let r = submit_work(&mut e, &freelancer(), &link, &key(), 1_001);
    assert_eq!(r.unwrap_err(), EscrowError::WorkLinkTooLong);
    assert_eq!(e.status, EscrowStatus::Funded);
    assert_eq!(e.work_link, "");
}

#[test]
fn submit_with_200_characters_succeeds() {
    let (mut e, _b) = funded(300, 5, 1_000);
    let link = "a".repeat(200);
    let ev = submit_work(&mut e, &freelancer(), &link, &key(), 1_001).unwrap();
    assert_eq!(ev.work_link, link);
    assert_eq!(e.work_link, link);
    assert_eq!(e.status, EscrowStatus::Submitted);
    assert_eq!(e.submitted_at, 1_001);
}

#[test]
fn submit_over_600_bytes_is_too_long() {
    let (mut e, _b) = funded(300, 5, 1_000);
    let link = "\u{1F600}".repeat(151);
    assert_eq!(link.chars().count(), 151);
    let r = submit_work(&mut e, &freelancer(), &link, &key(), 1_001);
    assert_eq!(r.unwrap_err(), EscrowError::WorkLinkTooLong);
    let link = "\u{1F600}".repeat(150);
    assert!(submit_work(&mut e, &freelancer(), &link, &key(), 1_001).is_ok());
}

#[test]
fn submit_blank_link_is_invalid() {
    let (mut e, _b) = funded(300, 5, 1_000);
    let r = submit_work(&mut e, &freelancer(), " \t\n ", &key(), 1_001);
    assert_eq!(r.unwrap_err(), EscrowError::InvalidWorkLink);
    let r = submit_work(&mut e, &freelancer(), "", &key(), 1_001);
    assert_eq!(r.unwrap_err(), EscrowError::InvalidWorkLink);
}

#[test]
fn submit_stores_trimmed_link() {
    let (mut e, _b) = funded(300, 5, 1_000);
    let link = format!("  {}\u{3000}\n", "b".repeat(200));
    submit_work(&mut e, &freelancer(), &link, &key(), 1_001).unwrap();
    assert_eq!(e.work_link, "b".repeat(200));
}

#[test]
fn submit_checks_caller_then_status_then_link() {
    let mut e = new_escrow(300, 5);
    let r = submit_work(&mut e, &client(), "", &key(), 1);
    assert_eq!(r.unwrap_err(), EscrowError::Unauthorized);
    let r = submit_work(&mut e, &freelancer(), "", &key(), 1);
    assert_eq!(r.unwrap_err(), EscrowError::InvalidStatus);
}

#[test]
fn trim_matches_std() {
    for s in ["  x y  ", "\u{85}a\u{a0}", "", "   ", "\u{2028}z\u{205f}", "q\u{200b}"] {
        assert_eq!(trim(s), s.trim());
    }
    assert_eq!(validate_work_link("  ok ").unwrap(), "ok");
}

#[test]
fn withdraw_by_stranger_is_unauthorized_in_every_status() {
    let stranger = id(7);
    let (mut e, mut b) = funded(300, 5, 1_000);
    let statuses = [
        EscrowStatus::Pending,
        EscrowStatus::Funded,
        EscrowStatus::Submitted,
        EscrowStatus::Approved,
        EscrowStatus::Complete,
        EscrowStatus::Disputed,
        EscrowStatus::Refunded,
    ];
    for s in statuses {
        e.status = s;
        let r = withdraw_payment(&mut e, &mut b, &stranger, &key(), 2_000);
        assert_eq!(r.unwrap_err(), EscrowError::Unauthorized);
        let r = withdraw_payment(&mut e, &mut b, &client(), &key(), 2_000);
        assert_eq!(r.unwrap_err(), EscrowError::Unauthorized);
        assert_eq!(e.status, s);
    }
    assert_eq!(b.custody, 300);
}

#[test]
fn withdraw_before_approval_is_invalid_status() {
    let (mut e, mut b) = funded(300, 5, 1_000);
    let r = withdraw_payment(&mut e, &mut b, &freelancer(), &key(), 1_001);
    assert_eq!(r.unwrap_err(), EscrowError::InvalidStatus);
}

#[test]
fn approve_requires_submission_and_client() {
    let (mut e, _b) = funded(300, 5, 1_000);
    let r = approve_submission(&mut e, &client(), &key(), 1_001);
    assert_eq!(r.unwrap_err(), EscrowError::InvalidStatus);
    submit_work(&mut e, &freelancer(), "done", &key(), 1_001).unwrap();
    let r = approve_submission(&mut e, &freelancer(), &key(), 1_002);
    assert_eq!(r.unwrap_err(), EscrowError::Unauthorized);
    let ev = approve_submission(&mut e, &client(), &key(), 1_002).unwrap();
    assert_eq!(ev.client, client());
    assert_eq!(e.approved_at, 1_002);
}

#[test]
fn full_cycle_pays_freelancer() {
    let (mut e, ev) =
        initialize_escrow(&client(), 400, &freelancer(), 10, 250, &key(), 10).unwrap();
    assert_eq!(ev.amount, 400);
    let mut b = Balances::new(1_000, 0, 50).unwrap();
    deposit_funds(&mut e, &mut b, &client(), &key(), 20).unwrap();
    let custody_after_fund = b.custody;
    submit_work(&mut e, &freelancer(), "https://example.org/result", &key(), 30).unwrap();
    approve_submission(&mut e, &client(), &key(), 30).unwrap();
    let ev = withdraw_payment(&mut e, &mut b, &freelancer(), &key(), 40).unwrap();
    assert_eq!(ev.amount, 400);
    assert_eq!(ev.freelancer, freelancer());
    assert_eq!(b.custody, custody_after_fund - 400);
    assert_eq!(b, Balances { client: 600, custody: 0, freelancer: 450 });
    assert_eq!(e.status, EscrowStatus::Complete);
    let times = [e.created_at, e.funded_at, e.submitted_at, e.approved_at, e.completed_at];
    assert_eq!(times, [10, 20, 30, 30, 40]);
    assert!(times.iter().all(|t| *t > 0));
    assert!(times.windows(2).all(|w| w[0] <= w[1]));
    let r = withdraw_payment(&mut e, &mut b, &freelancer(), &key(), 50);
    assert_eq!(r.unwrap_err(), EscrowError::InvalidStatus);
    let r = refund_client(&mut e, &mut b, &client(), &key(), 50 + 10 * DAY);
    assert_eq!(r.unwrap_err(), EscrowError::InvalidStatus);
    assert_eq!(b.freelancer, 450);
}

#[test]
fn guard_maps_operations_to_parties() {
    let e = new_escrow(1, 1);
    assert!(authorized(Operation::Fund, &e, &client()));
    assert!(authorized(Operation::Approve, &e, &client()));
    assert!(authorized(Operation::Dispute, &e, &client()));
    assert!(authorized(Operation::Refund, &e, &client()));
    assert!(!authorized(Operation::Submit, &e, &client()));
    assert!(!authorized(Operation::Withdraw, &e, &client()));
    assert!(authorized(Operation::Submit, &e, &freelancer()));
    assert!(authorized(Operation::Withdraw, &e, &freelancer()));
    assert!(!authorized(Operation::Fund, &e, &freelancer()));
}

#[test]
fn balances_refuse_overflowing_total() {
    assert!(Balances::new(u64::MAX, 1, 0).is_none());
    assert!(Balances::new(u64::MAX, 0, 0).is_some());
}

#[test]
fn custody_address_matches_derivation() {
    let program = Pubkey::new_from_array([42u8; 32]);
    let c = client();
    let f = freelancer();
    let (pda, bump) =
        Pubkey::find_program_address(&[b"escrow", &c.bytes, &f.bytes], &program);
    let pid = Identity::new(program.to_bytes());
    let derived = derive_custody_address(&c, &f, bump, &pid).unwrap();
    assert_eq!(derived, Identity::new(pda.to_bytes()));
    assert_ne!(derived, pid);
    let e = initialize_escrow(&c, 5, &f, 3, bump, &derived, 1).unwrap().0;
    assert!(is_custody_address(&e, &derived, &pid));
    assert!(!is_custody_address(&e, &c, &pid));
}
