//! Flash loans: a lender hands assets to a borrower for the time of one operation and
//! takes them back with a fee before the operation ends, or the operation never happened.
//!
//! The library decides; a host acts. `flash_loan` holds the protocol of a loan as a
//! sequence of outside calls that the host makes and reports on, `contract` the lending
//! contract with its allow list, fee schedule and earnings, `fees` the fee arithmetic,
//! and `accounting` what a completed loan has done to the books and to custody. Nothing
//! here moves an asset or keeps a lock: a host lets each operation go through as a whole
//! or undoes it as a whole, nested ones included.

pub mod types;
pub mod fees;
pub mod registry;
pub mod events;
pub mod flash_loan;
pub mod accounting;
pub mod contract;
pub mod simple;
pub mod receiver_mock;
pub mod token;
