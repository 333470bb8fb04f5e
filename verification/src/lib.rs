//! An on-ledger instruction processor that deploys a fungible token.
//!
//! The library decodes a tagged instruction from its binary wire format,
//! validates the positional account list that the host runtime supplies,
//! and plans the fixed sequence of external calls that creates a mint,
//! creates a holding account, and mints an initial supply — all within
//! one atomic ledger transaction driven by the host.

pub mod accounts;
pub mod error;
pub mod instruction;
pub mod processor;
pub mod state;
