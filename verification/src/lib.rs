//! A value-custody escrow for commissioned audit work, together with an
//! arbitration voting coordinator that can settle disputed audits, and a
//! small reward-record ledger.
//!
//! The escrow ledger owns audit records and enforces the audit status state
//! machine, caller authorization, deadline arithmetic and percentage-based
//! payout splitting.  The voting coordinator aggregates arbiter votes on a
//! disputed audit and finalizes the dispute with a single privileged call
//! back into the ledger.  Value transfers themselves are performed by an
//! external collaborator; each entry point takes the collaborator's reported
//! outcome and commits no state when a required transfer failed.

pub mod escrow;
pub mod reward;
pub mod types;
pub mod voting;
