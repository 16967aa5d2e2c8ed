//! Custody-and-exchange authority for retiring a deprecated token.
//!
//! Holders of a deprecated "input" token atomically burn that token and
//! receive the same amount of a target token from a program-controlled
//! reserve. The reserve is owned by a program-derived authority that has no
//! private key: only the program, holding the state record's address and the
//! recorded bump, can sign transfers out of it.
//!
//! The library holds the authority and validation logic: how the reserve is
//! bound to the program at provisioning, how every account handed to an
//! operation is checked against the record, and how each operation changes
//! the modelled balances. The token ledger itself (burn, transfer, close) is
//! an outside collaborator reached from unverified glue.

pub mod addr;
pub mod accounts;
pub mod admin;
pub mod close;
pub mod error;
pub mod initialize;
pub mod pda;
pub mod laws;
pub mod state;
pub mod swap;
