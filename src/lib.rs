//! A two-party escrow: a client funds a custody slot, a freelancer submits
//! work, and the value is released to the freelancer on approval or returned
//! to the client after a dispute or an elapsed funding timeout.
pub mod custody;
pub mod error;
pub mod escrow;
pub mod identity;
pub mod laws;
pub mod status;
pub mod timeout;
pub mod work_link;
