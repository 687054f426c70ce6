use vstd::prelude::*;

verus! {

/// The lifecycle status of an escrow record.
#[derive(Clone, Copy, Debug, PartialEq, Eq, Structural)]
pub enum EscrowStatus {
    Pending,
    Funded,
    Submitted,
    Approved,
    Complete,
    Disputed,
    Refunded,
}

/// The edges of the lifecycle graph: `Pending -> Funded -> Submitted ->
/// Approved -> Complete`, `Funded` and `Submitted` may branch to `Disputed`,
/// and `Disputed` or `Funded` may end in `Refunded`.
pub open spec fn is_edge(from: EscrowStatus, to: EscrowStatus) -> bool {
    match (from, to) {
        (EscrowStatus::Pending, EscrowStatus::Funded) => true,
        (EscrowStatus::Funded, EscrowStatus::Submitted) => true,
        (EscrowStatus::Submitted, EscrowStatus::Approved) => true,
        (EscrowStatus::Approved, EscrowStatus::Complete) => true,
        (EscrowStatus::Funded, EscrowStatus::Disputed) => true,
        (EscrowStatus::Submitted, EscrowStatus::Disputed) => true,
        (EscrowStatus::Disputed, EscrowStatus::Refunded) => true,
        (EscrowStatus::Funded, EscrowStatus::Refunded) => true,
        _ => false,
    }
}

/// A status from which no operation leads anywhere.
pub open spec fn is_terminal(s: EscrowStatus) -> bool {
    s == EscrowStatus::Complete || s == EscrowStatus::Refunded
}

/// The statuses in which the escrowed amount sits in custody.
pub open spec fn holds_custody(s: EscrowStatus) -> bool {
    s == EscrowStatus::Funded || s == EscrowStatus::Submitted || s == EscrowStatus::Approved
        || s == EscrowStatus::Disputed
}

impl EscrowStatus {
    pub fn is_terminal(&self) -> (r: bool)
        ensures
            r == is_terminal(*self),
    {
        matches!(self, EscrowStatus::Complete | EscrowStatus::Refunded)
    }
}

/// Terminal statuses have no outgoing edge.
pub proof fn lemma_terminal_has_no_edge(from: EscrowStatus, to: EscrowStatus)
    requires
        is_terminal(from),
    ensures
        !is_edge(from, to),
{
}

} // verus!
