pub mod error;
pub mod layout;
pub mod instruction;
pub mod state;
pub mod ledger;
pub mod processor;
