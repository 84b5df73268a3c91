//! An on-chain entitlement engine for a creator-content marketplace.
//!
//! The engine tracks creator profiles, published content items, time-bounded
//! subscriptions and one-off purchases, and answers the question "may this
//! account decrypt this content?". The host ledger platform — durable
//! storage, block time, and cryptographic caller authentication — is an
//! external collaborator: its verdicts and its clock enter the library as
//! plain values, and the library's contracts say exactly what every table
//! and every decision looks like afterwards.

pub mod hub;
pub mod laws;
pub mod model;
pub mod records;

pub use hub::CreatorHub;
pub use records::{AccessDecision, AccountId, Content, ContentId, Creator, HubError};
