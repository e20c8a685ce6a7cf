//! A ledger of land titles: users, owners, land objects and the history of
//! each object, changed only by transactions.
pub mod keys;
pub mod assoc;
pub mod types;
pub mod txs;
pub mod model;
pub mod ledger;
pub mod laws;
