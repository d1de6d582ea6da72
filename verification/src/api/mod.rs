//! What the JSON and form API answers.

pub mod ledger;
pub mod user;
