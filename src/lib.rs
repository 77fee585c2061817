//! Interaction ledger, mutual-match detection and candidate feed selection
//! for a dating backend, with the response shapes the transport layer sends.

pub mod error;
pub mod ids;
pub mod ledger;
pub mod ledger_laws;
pub mod preferences;
pub mod profile;
pub mod feed;
pub mod feed_laws;
pub mod seed;
pub mod text;
pub mod user;
pub mod responses;
pub mod interactions;
