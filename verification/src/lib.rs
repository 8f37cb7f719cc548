//! A token-exchange ledger: a holder who presents one asset from each of two
//! designated collections receives one asset from a third, "upgraded"
//! collection, drawn from a pre-funded pool that decrements until exhausted.
//!
//! The execution host (storage commit, asset transfer, caller identity) is an
//! external collaborator: the library holds the configuration and the
//! remaining-supply counter, and decides each invocation from plain values the
//! host hands in (the attached transfer bundle, the inventory quantity at the
//! current ordinal, the caller). The host performs the payout the decision
//! describes, atomically with the state change.

pub mod ids;
pub mod ledger;
pub mod laws;

pub use ids::AccountId;
pub use ids::TokenId;
pub use ledger::ExchangeError;
pub use ledger::ExchangeLedger;
pub use ledger::NftEvolution;
pub use ledger::Payout;
