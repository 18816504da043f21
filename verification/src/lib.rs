pub mod pubkey;
pub mod error;
pub mod state;
pub mod whitelist;
pub mod vault_ops;
pub mod randomness;
pub mod laws;
