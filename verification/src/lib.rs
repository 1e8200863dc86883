//! Fortress economy engine: what a building upgrade costs, what a
//! collection brings in, and the transactions that credit and debit a
//! fortress, each of which goes through as a whole or not at all.

pub mod models;
pub mod cost;
pub mod bonus;
pub mod upgrade;
pub mod machine;
pub mod store;
pub mod queries;
pub mod founding;
pub mod removal;
pub mod transaction;
pub mod laws;
pub mod fortress;
