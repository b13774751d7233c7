pub mod binding;
pub mod history;
pub mod ledger;
pub mod memory;
pub mod outcome;
pub mod query;
pub mod reply;
pub mod rows;
pub mod statement;
