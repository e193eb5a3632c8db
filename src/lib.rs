//! A migration vault: holders of a deprecated token exchange it for a
//! replacement token, at a rate fixed by the vault's strategy, from a pool
//! that the vault's derived address alone controls.

pub mod address;
pub mod error;
pub mod strategy;
pub mod vault;

pub use address::Address;
pub use error::MigrateError;
pub use strategy::Strategy;
pub use vault::{initialize, migrate, Initialize, Migrate, MigrateEvent, Mint, TokenAccount, Vault, VaultSeeds};
