//! Settlement of purchases of verified research-data bundles.
//!
//! Three cooperating components: a ledger of verified studies
//! ([`study_registry`]), a catalog of purchasable datasets that orchestrates
//! purchases ([`dataset_marketplace`]), and a payout engine that splits a fixed
//! reward between contributors and a platform treasury ([`revenue_splitter`]).
//! Payouts move funds on an [`asset_ledger`].
//!
//! Every component owns its records and its event log. An operation either
//! runs to completion or leaves all state as it found it.

pub mod address;
pub mod asset_ledger;
pub mod dataset_marketplace;
pub mod keyed;
pub mod octets;
pub mod revenue_splitter;
pub mod study_registry;
