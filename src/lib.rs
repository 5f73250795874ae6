//! A single-item escrowed auction: the record, the rules that validate each
//! operation's accounts, and the escrow transfers each operation asks the
//! token service to perform.

pub mod address;
pub mod authority;
pub mod auction;
pub mod laws;
