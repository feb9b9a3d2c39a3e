//! Error kinds for wallet operations.

use vstd::prelude::*;

verus! {

/// Why a wallet operation was rejected. Every error aborts the whole
/// operation with no partial state change.
#[derive(Clone, Copy, PartialEq, Eq, Structural, Debug)]
pub enum WalletError {
    /// The claimed signer is not the recorded owner of the wallet.
    Unauthorized,
    /// Reserved: the external token service found the source holding short.
    InsufficientBalance,
    /// Reserved: the external token service rejected a holding.
    InvalidTokenAccount,
    /// The derived address does not match the claimed owner and nonce.
    AddressMismatch,
    /// A wallet record already occupies the derived address.
    AlreadyExists,
    /// No wallet record exists at the given address.
    NotFound,
    /// The external token-transfer service reported failure.
    DelegatedTransferFailed,
}

} // verus!
