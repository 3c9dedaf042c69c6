//! Reputation scoring for passport records: activity normalization and
//! aggregation, a declarative rule engine, update deltas, and the data types
//! shared with the on-chain passport application.

pub mod activity;
pub mod collector;
pub mod config;
pub mod contract;
pub mod delta;
pub mod encoding;
pub mod generative;
pub mod ids;
pub mod json;
pub mod lookup;
pub mod mint;
pub mod oracle;
pub mod passport;
pub mod scoring;
pub mod rules;
