//! Revenue-share ledger: offerings, periodic deposits, holder shares and
//! claims, with guardrails and a two-step issuer transfer.
//!
//! The ledger is a state machine over plain values. Every call either fails
//! with a typed error and changes nothing, or succeeds and queues the
//! effects its host must perform (authorizations, asset movements and
//! events; see `Effect`), which the host drains with `take_effects`.

pub mod types;
pub mod error;
pub mod math;
pub mod state;
pub mod lifecycle;
pub mod registry;
pub mod guardrails;
pub mod ledger;
pub mod claims;
pub mod distribution;
pub mod transfer;
pub mod laws;

pub use error::RevoraError;
pub use math::RoundingMode;
pub use state::{
    Address, AuditSummary, ConcentrationLimitConfig, Effect, Event, HolderAccount, IssuerSettings,
    LedgerView, Offering, PeriodRecord, RevenueReport, RevoraRevenueShare,
    SimulateDistributionResult,
};
pub use types::{Bps, PeriodId, RevenueAmount};

