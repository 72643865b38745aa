//! A fundraising ledger for charity kermesse events.
//!
//! The library keeps the whole event ledger in memory: users, events
//! (kermesses), dishes, ingredients, donations, collaborator requests, and
//! multi-line sales. Every operation is verified: sales are recorded
//! atomically with exact fixed-point totals, donation progress and dashboard
//! statistics are derived from the raw rows, and the collaborator-approval
//! workflow only moves through its allowed transitions.

pub mod amount;
pub mod catalog;
pub mod collab;
pub mod donations;
pub mod ledger;
pub mod model;
pub mod orders;
pub mod stats;

pub use amount::Amount;
