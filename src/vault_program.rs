pub mod authority;
pub mod errors;
pub mod events;
pub mod ledger;
pub mod state;
pub mod vault;
