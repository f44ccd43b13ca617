//! Verified building blocks of a MobileCoin node and its tools.
pub mod audited_mint;
pub mod error;
pub mod event;
pub mod gnosis;
pub mod hex_text;
pub mod keyfile;
pub mod mint_tx;
pub mod multisig;
pub mod number_text;
