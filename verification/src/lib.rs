//! The access-control and data-consistency core of a multi-tenant task
//! manager: tenants own work-lists, and work-lists hold todos.
//!
//! The core never talks to storage itself. Every operation is a small
//! machine that says which query storage is to answer next and takes the
//! answer; `storage::ledger` says what each query means, `storage::memory`
//! is a store that answers accordingly, and `guarantees` holds what follows
//! for every tenant and every state of storage.

pub mod database;
pub mod error;
pub mod forms;
pub mod guarantees;
pub mod model;
pub mod patch;
pub mod repository;
pub mod storage;
pub mod web_app;
