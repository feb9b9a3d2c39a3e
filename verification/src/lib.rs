//! Deterministically addressed wallet records with single-owner
//! authorization over delegated token transfers.
//!
//! A wallet record is stored at an address derived from a namespace seed,
//! the owner's public key and a derivation nonce. Only the recorded owner
//! may move value out of associated token holdings, and every settled
//! transfer bumps an append-only transaction counter.

pub mod account;
pub mod address;
pub mod errors;
pub mod laws;
pub mod program;
pub mod store;

pub use account::AccountId;
pub use errors::WalletError;
pub use program::DelegatedTransfer;
pub use program::GetWalletInfo;
pub use program::InitializeWallet;
pub use program::ProgramConfig;
pub use program::TransferAction;
pub use program::TransferTokens;
pub use program::WalletInfo;
pub use store::Wallet;
pub use store::WalletStore;
