//! Wallet operations: initialization, authorized token transfers, and
//! read-only queries.
//!
//! The actual movement of value is delegated to an external token service.
//! A caller first asks `prepare_transfer` for the action to perform; only
//! when that succeeds may it invoke the service, and it then reports the
//! service's report back through `transfer_tokens`, which settles the
//! counter. The decision logic is stated by the spec-level step functions
//! below, which the law lemmas reason over.

use vstd::prelude::*;

use crate::account::AccountId;
use crate::address::derive_canonical;
use crate::address::derived_address;
use crate::address::nonce_canonical;
use crate::address::validate;
use crate::errors::WalletError;
use crate::store::Wallet;
use crate::store::WalletSnapshot;
use crate::store::WalletStore;

verus! {

/// Fixed, process-wide configuration: the namespace seed that scopes this
/// program's derived addresses, and the program's own identity.
pub struct ProgramConfig {
    pub namespace: Vec<u8>,
    pub program_id: AccountId,
}

/// Request to initialize a wallet: the owner-to-be, who the host runtime
/// has already authenticated as the signer.
pub struct InitializeWallet {
    pub owner: AccountId,
}

/// Request to transfer tokens out of a holding associated with a wallet.
pub struct TransferTokens {
    /// Address of the wallet record that authorizes the transfer.
    pub wallet: AccountId,
    /// Source token holding.
    pub from_token_account: AccountId,
    /// Destination token holding.
    pub to_token_account: AccountId,
    /// The claimed signer; must be the recorded owner of the wallet.
    pub owner: AccountId,
}

/// Request to query a wallet record.
pub struct GetWalletInfo {
    pub wallet: AccountId,
}

/// Publicly visible projection of a wallet record.
#[derive(Clone, Copy)]
pub struct WalletInfo {
    pub owner: AccountId,
    pub transaction_count: u64,
}

/// The report of the external token-transfer service on one requested
/// movement of value, as reported back by the caller that invoked it.
#[derive(Clone, Copy, PartialEq, Eq, Structural, Debug)]
pub enum DelegatedTransfer {
    /// The service settled the transfer.
    Settled,
    /// The service reported failure; nothing moved.
    Failed,
}

/// The one action a caller may hand to the external token service: move
/// `amount` from `from` to `to`, authorized by `authority`.
#[derive(Clone, Copy)]
pub struct TransferAction {
    pub from: AccountId,
    pub to: AccountId,
    pub authority: AccountId,
    pub amount: u64,
}

/// Outcome of initialization on a store: the derived address on success,
/// and the store afterwards. Only the canonical nonce is accepted: it is
/// the nonce that will forever identify this owner's record, so for one
/// owner at most one address can ever be created.
pub open spec fn initialize_outcome(
    ns: Seq<u8>,
    pid: Seq<u8>,
    m: Map<Seq<u8>, WalletSnapshot>,
    owner: Seq<u8>,
    bump: u8,
) -> Result<Seq<u8>, WalletError> {
    if !nonce_canonical(ns, owner, bump, pid) {
        Err(WalletError::AddressMismatch)
    } else {
        let a = derived_address(ns, owner, bump, pid).unwrap();
        if m.contains_key(a) {
            Err(WalletError::AlreadyExists)
        } else {
            Ok(a)
        }
    }
}

/// The store after initialization: unchanged on any error, else extended
/// by a fresh record with a zero counter at the derived address.
pub open spec fn initialize_map(
    ns: Seq<u8>,
    pid: Seq<u8>,
    m: Map<Seq<u8>, WalletSnapshot>,
    owner: Seq<u8>,
    bump: u8,
) -> Map<Seq<u8>, WalletSnapshot> {
    match initialize_outcome(ns, pid, m, owner, bump) {
        Ok(a) => m.insert(a, (WalletSnapshot { owner: owner, bump: bump, transaction_count: 0 })),
        Err(_) => m,
    }
}

/// Whether a record occupies `address` and its stored fields re-derive
/// that address. A record that fails this is corrupt and inaccessible:
/// every access aborts with an addressing error.
pub open spec fn record_accessible(
    ns: Seq<u8>,
    pid: Seq<u8>,
    m: Map<Seq<u8>, WalletSnapshot>,
    address: Seq<u8>,
) -> bool {
    &&& m.contains_key(address)
    &&& derived_address(ns, m[address].owner, m[address].bump, pid) == Some(address)
}

/// Whether the record at `address` exists, is canonically addressed, and
/// is owned by `signer`: the condition under which a transfer may reach
/// the external token service.
pub open spec fn transfer_authorized(
    ns: Seq<u8>,
    pid: Seq<u8>,
    m: Map<Seq<u8>, WalletSnapshot>,
    address: Seq<u8>,
    signer: Seq<u8>,
) -> bool {
    &&& record_accessible(ns, pid, m, address)
    &&& signer == m[address].owner
}

/// The error a transfer aborts with before any value moves, where one of
/// the three authorization steps fails.
pub open spec fn transfer_rejection(
    ns: Seq<u8>,
    pid: Seq<u8>,
    m: Map<Seq<u8>, WalletSnapshot>,
    address: Seq<u8>,
    signer: Seq<u8>,
) -> WalletError {
    if !m.contains_key(address) {
        WalletError::NotFound
    } else if derived_address(ns, m[address].owner, m[address].bump, pid) != Some(address) {
        WalletError::AddressMismatch
    } else {
        WalletError::Unauthorized
    }
}

/// Result of a transfer, given what the external service reported: the new
/// transaction count on success. The decision does not depend on the
/// amount; the external service alone judges the value moved.
pub open spec fn transfer_outcome(
    ns: Seq<u8>,
    pid: Seq<u8>,
    m: Map<Seq<u8>, WalletSnapshot>,
    address: Seq<u8>,
    signer: Seq<u8>,
    delegated: DelegatedTransfer,
) -> Result<u64, WalletError> {
    if !transfer_authorized(ns, pid, m, address, signer) {
        Err(transfer_rejection(ns, pid, m, address, signer))
    } else if delegated == DelegatedTransfer::Failed {
        Err(WalletError::DelegatedTransferFailed)
    } else {
        Ok((m[address].transaction_count + 1) as u64)
    }
}

/// The store after a transfer: unchanged on any error, else the same but
/// for the one counter, which grows by exactly one.
pub open spec fn transfer_map(
    ns: Seq<u8>,
    pid: Seq<u8>,
    m: Map<Seq<u8>, WalletSnapshot>,
    address: Seq<u8>,
    signer: Seq<u8>,
    delegated: DelegatedTransfer,
) -> Map<Seq<u8>, WalletSnapshot> {
    match transfer_outcome(ns, pid, m, address, signer, delegated) {
        Ok(c) => m.insert(
            address,
            (WalletSnapshot {
                owner: m[address].owner,
                bump: m[address].bump,
                transaction_count: c,
            }),
        ),
        Err(_) => m,
    }
}

/// The single security-critical comparison: succeeds exactly when the
/// claimed signer is the recorded owner. No side effects.
pub fn authorize(record: &Wallet, claimed_signer: &AccountId) -> (r: Result<(), WalletError>)
    ensures
        match r {
            Ok(()) => claimed_signer@ == record@.owner,
            Err(e) => e == WalletError::Unauthorized && claimed_signer@ != record@.owner,
        },
{
    if claimed_signer.eq_bytes(&record.owner) {
        Ok(())
    } else {
        Err(WalletError::Unauthorized)
    }
}

/// Create the wallet record for `ctx.owner` at its derived address, with
/// a zero transaction counter. Fails with `AddressMismatch` unless `bump`
/// is the canonical nonce for this owner — the one the host runtime
/// assigns — and with `AlreadyExists` where the derived address is
/// already occupied. Since one owner has at most one canonical nonce
/// (`lemma_canonical_nonce_unique`), at most one record per owner can
/// ever be created.
pub fn initialize_wallet(
    cfg: &ProgramConfig,
    store: &mut WalletStore,
    ctx: &InitializeWallet,
    bump: u8,
) -> (r: Result<AccountId, WalletError>)
    requires
        old(store).wf(),
    ensures
        final(store).wf(),
        final(store)@ == initialize_map(
            cfg.namespace@,
            cfg.program_id@,
            old(store)@,
            ctx.owner@,
            bump,
        ),
        match r {
            Ok(a) => initialize_outcome(
                cfg.namespace@,
                cfg.program_id@,
                old(store)@,
                ctx.owner@,
                bump,
            ) == Ok::<Seq<u8>, WalletError>(a@),
            Err(e) => initialize_outcome(
                cfg.namespace@,
                cfg.program_id@,
                old(store)@,
                ctx.owner@,
                bump,
            ) == Err::<Seq<u8>, WalletError>(e),
        },
{
    match derive_canonical(cfg.namespace.as_slice(), &ctx.owner, bump, &cfg.program_id) {
        None => Err(WalletError::AddressMismatch),
        Some(address) => match store.create(&address, &ctx.owner, bump) {
            Ok(()) => Ok(address),
            Err(e) => Err(e),
        },
    }
}

/// Decide whether a transfer may proceed, and if so with what action.
/// Succeeds exactly when the wallet record exists at `req.wallet`, its
/// stored fields re-derive that address, and `req.owner` is the recorded
/// owner; the action then carries the requested holdings, authority and
/// amount through to the external token service. Reads only.
pub fn prepare_transfer(
    cfg: &ProgramConfig,
    store: &WalletStore,
    req: &TransferTokens,
    amount: u64,
) -> (r: Result<TransferAction, WalletError>)
    requires
        store.wf(),
    ensures
        match r {
            Ok(action) => transfer_authorized(
                cfg.namespace@,
                cfg.program_id@,
                store@,
                req.wallet@,
                req.owner@,
            ) && action.from == req.from_token_account && action.to == req.to_token_account
                && action.authority == req.owner && action.amount == amount,
            Err(e) => !transfer_authorized(
                cfg.namespace@,
                cfg.program_id@,
                store@,
                req.wallet@,
                req.owner@,
            ) && e == transfer_rejection(
                cfg.namespace@,
                cfg.program_id@,
                store@,
                req.wallet@,
                req.owner@,
            ),
        },
{
    let record = match store.read(&req.wallet) {
        Ok(w) => w,
        Err(e) => {
            return Err(e);
        },
    };
    if !validate(&req.wallet, cfg.namespace.as_slice(), &record.owner, record.bump, &cfg.program_id)
    {
        return Err(WalletError::AddressMismatch);
    }
    match authorize(&record, &req.owner) {
        Ok(()) => Ok(
            TransferAction {
                from: req.from_token_account,
                to: req.to_token_account,
                authority: req.owner,
                amount,
            },
        ),
        Err(e) => Err(e),
    }
}

/// Settle a transfer: re-run the authorization steps, then, given that
/// the external token service settled the requested movement, add one to
/// the wallet's transaction counter and return the new count. Any error,
/// including a failure reported by the service, leaves the store exactly
/// as it was.
pub fn transfer_tokens(
    cfg: &ProgramConfig,
    store: &mut WalletStore,
    req: &TransferTokens,
    amount: u64,
    delegated: DelegatedTransfer,
) -> (r: Result<u64, WalletError>)
    requires
        old(store).wf(),
        transfer_authorized(cfg.namespace@, cfg.program_id@, old(store)@, req.wallet@, req.owner@)
            && delegated == DelegatedTransfer::Settled ==> old(store)@[
            req.wallet@
        ].transaction_count < u64::MAX,
    ensures
        final(store).wf(),
        r == transfer_outcome(
            cfg.namespace@,
            cfg.program_id@,
            old(store)@,
            req.wallet@,
            req.owner@,
            delegated,
        ),
        final(store)@ == transfer_map(
            cfg.namespace@,
            cfg.program_id@,
            old(store)@,
            req.wallet@,
            req.owner@,
            delegated,
        ),
{
    let record = match store.read(&req.wallet) {
        Ok(w) => w,
        Err(e) => {
            return Err(e);
        },
    };
    if !validate(&req.wallet, cfg.namespace.as_slice(), &record.owner, record.bump, &cfg.program_id)
    {
        return Err(WalletError::AddressMismatch);
    }
    if let Err(e) = authorize(&record, &req.owner) {
        return Err(e);
    }
    match delegated {
        DelegatedTransfer::Failed => Err(WalletError::DelegatedTransferFailed),
        DelegatedTransfer::Settled => {
            let c = match store.increment_counter(&req.wallet) {
                Ok(c) => c,
                Err(e) => {
                    return Err(e);
                },
            };
            Ok(c)
        },
    }
}

/// Read-only projection of the wallet record at `ctx.wallet`: its owner
/// and transaction count. No authorization is required, but the stored
/// fields must re-derive the address: a record that fails that is
/// corrupt and none of its data is handed out.
pub fn get_wallet_info(cfg: &ProgramConfig, store: &WalletStore, ctx: &GetWalletInfo) -> (r: Result<
    WalletInfo,
    WalletError,
>)
    requires
        store.wf(),
    ensures
        match r {
            Ok(info) => record_accessible(cfg.namespace@, cfg.program_id@, store@, ctx.wallet@)
                && info.owner@ == store@[ctx.wallet@].owner && info.transaction_count == store@[
                ctx.wallet@
            ].transaction_count,
            Err(e) => if !store@.contains_key(ctx.wallet@) {
                e == WalletError::NotFound
            } else {
                e == WalletError::AddressMismatch && !record_accessible(
                    cfg.namespace@,
                    cfg.program_id@,
                    store@,
                    ctx.wallet@,
                )
            },
        },
{
    let record = match store.read(&ctx.wallet) {
        Ok(w) => w,
        Err(e) => {
            return Err(e);
        },
    };
    if !validate(&ctx.wallet, cfg.namespace.as_slice(), &record.owner, record.bump, &cfg.program_id)
    {
        return Err(WalletError::AddressMismatch);
    }
    Ok(WalletInfo { owner: record.owner, transaction_count: record.transaction_count })
}

} // verus!
