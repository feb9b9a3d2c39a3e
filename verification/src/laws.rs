//! Laws of the wallet program, stated and proved over the spec-level step
//! functions that the executable operations are specified by.

use vstd::prelude::*;

use crate::errors::WalletError;
use crate::address::derived_address;
use crate::address::nonce_canonical;
use crate::program::DelegatedTransfer;
use crate::program::initialize_map;
use crate::program::initialize_outcome;
use crate::program::transfer_authorized;
use crate::program::transfer_map;
use crate::program::transfer_outcome;
use crate::store::WalletSnapshot;

verus! {

/// One owner has at most one canonical nonce under a given namespace and
/// program identity, and so at most one record address.
pub proof fn lemma_canonical_nonce_unique(
    ns: Seq<u8>,
    owner: Seq<u8>,
    pid: Seq<u8>,
    n1: u8,
    n2: u8,
)
    requires
        nonce_canonical(ns, owner, n1, pid),
        nonce_canonical(ns, owner, n2, pid),
    ensures
        n1 == n2,
{
    if n1 < n2 {
        assert(derived_address(ns, owner, n2, pid) is None);
    } else if n2 < n1 {
        assert(derived_address(ns, owner, n1, pid) is None);
    }
}

/// For any owner with a canonical nonce, the first initialization
/// succeeds with a zero transaction counter, and a second initialization
/// for the same owner fails with any nonce whatsoever — `AlreadyExists`
/// at the one canonical nonce, `AddressMismatch` at every other —
/// leaving the store unchanged: at most one record per owner exists.
pub proof fn lemma_initialize_uniqueness(
    ns: Seq<u8>,
    pid: Seq<u8>,
    m: Map<Seq<u8>, WalletSnapshot>,
    owner: Seq<u8>,
    bump: u8,
    bump2: u8,
)
    requires
        nonce_canonical(ns, owner, bump, pid),
        !m.contains_key(derived_address(ns, owner, bump, pid).unwrap()),
    ensures
        ({
            let a = derived_address(ns, owner, bump, pid).unwrap();
            let m1 = initialize_map(ns, pid, m, owner, bump);
            &&& initialize_outcome(ns, pid, m, owner, bump) == Ok::<Seq<u8>, WalletError>(a)
            &&& m1.contains_key(a)
            &&& m1[a].owner == owner
            &&& m1[a].transaction_count == 0
            &&& initialize_outcome(ns, pid, m1, owner, bump2) == Err::<Seq<u8>, WalletError>(
                if bump2 == bump {
                    WalletError::AlreadyExists
                } else {
                    WalletError::AddressMismatch
                },
            )
            &&& initialize_map(ns, pid, m1, owner, bump2) == m1
        }),
{
    if bump2 != bump && nonce_canonical(ns, owner, bump2, pid) {
        lemma_canonical_nonce_unique(ns, owner, pid, bump, bump2);
    }
}

/// Address derivation is deterministic: any two results of derivation
/// from identical inputs are the same.
pub proof fn lemma_derivation_deterministic(
    ns: Seq<u8>,
    owner: Seq<u8>,
    nonce: u8,
    pid: Seq<u8>,
    r1: Option<Seq<u8>>,
    r2: Option<Seq<u8>>,
)
    requires
        r1 == derived_address(ns, owner, nonce, pid),
        r2 == derived_address(ns, owner, nonce, pid),
    ensures
        r1 == r2,
{
}

/// A transfer claimed by anyone but the recorded owner of a canonically
/// addressed record is rejected as `Unauthorized`, whatever the external
/// service would have said, and the store is unchanged — so no action is
/// authorized and the external service is never handed one.
pub proof fn lemma_unauthorized_rejected(
    ns: Seq<u8>,
    pid: Seq<u8>,
    m: Map<Seq<u8>, WalletSnapshot>,
    address: Seq<u8>,
    signer: Seq<u8>,
    delegated: DelegatedTransfer,
)
    requires
        m.contains_key(address),
        derived_address(ns, m[address].owner, m[address].bump, pid) == Some(address),
        signer != m[address].owner,
    ensures
        !transfer_authorized(ns, pid, m, address, signer),
        transfer_outcome(ns, pid, m, address, signer, delegated) == Err::<u64, WalletError>(
            WalletError::Unauthorized,
        ),
        transfer_map(ns, pid, m, address, signer, delegated) == m,
{
}

/// A transfer by the recorded owner that the external service settles
/// returns exactly the old transaction count plus one, and bumps only
/// that counter: owner and nonce stay, and every other record stays. The
/// amount requested plays no part in the outcome.
pub proof fn lemma_successful_transfer(
    ns: Seq<u8>,
    pid: Seq<u8>,
    m: Map<Seq<u8>, WalletSnapshot>,
    address: Seq<u8>,
    signer: Seq<u8>,
)
    requires
        transfer_authorized(ns, pid, m, address, signer),
        m[address].transaction_count < u64::MAX,
    ensures
        ({
            let c = m[address].transaction_count;
            let m1 = transfer_map(ns, pid, m, address, signer, DelegatedTransfer::Settled);
            &&& transfer_outcome(ns, pid, m, address, signer, DelegatedTransfer::Settled)
                == Ok::<u64, WalletError>((c + 1) as u64)
            &&& m1.contains_key(address)
            &&& m1[address].transaction_count == c + 1
            &&& m1[address].owner == m[address].owner
            &&& m1[address].bump == m[address].bump
            &&& forall|k: Seq<u8>|
                m.contains_key(k) && k != address ==> m1.contains_key(k) && m1[k] == m[k]
        }),
{
}

/// Where the external service reports failure, the transfer fails with
/// `DelegatedTransferFailed` and the store is exactly as it was.
pub proof fn lemma_failed_delegated_transfer(
    ns: Seq<u8>,
    pid: Seq<u8>,
    m: Map<Seq<u8>, WalletSnapshot>,
    address: Seq<u8>,
    signer: Seq<u8>,
)
    requires
        transfer_authorized(ns, pid, m, address, signer),
    ensures
        transfer_outcome(ns, pid, m, address, signer, DelegatedTransfer::Failed) == Err::<
            u64,
            WalletError,
        >(WalletError::DelegatedTransferFailed),
        transfer_map(ns, pid, m, address, signer, DelegatedTransfer::Failed) == m,
{
}

/// The store after `k` transfers by `signer` at `address`, each settled
/// by the external service.
pub open spec fn settled_transfers(
    ns: Seq<u8>,
    pid: Seq<u8>,
    m: Map<Seq<u8>, WalletSnapshot>,
    address: Seq<u8>,
    signer: Seq<u8>,
    k: nat,
) -> Map<Seq<u8>, WalletSnapshot>
    decreases k,
{
    if k == 0 {
        m
    } else {
        transfer_map(
            ns,
            pid,
            settled_transfers(ns, pid, m, address, signer, (k - 1) as nat),
            address,
            signer,
            DelegatedTransfer::Settled,
        )
    }
}

/// Settled transfers by the owner of a canonically addressed record add
/// exactly one to its counter each, and never touch its owner or nonce.
pub proof fn lemma_settled_transfers_count(
    ns: Seq<u8>,
    pid: Seq<u8>,
    m: Map<Seq<u8>, WalletSnapshot>,
    address: Seq<u8>,
    signer: Seq<u8>,
    k: nat,
)
    requires
        transfer_authorized(ns, pid, m, address, signer),
        m[address].transaction_count + k <= u64::MAX,
    ensures
        ({
            let mk = settled_transfers(ns, pid, m, address, signer, k);
            &&& mk.contains_key(address)
            &&& mk[address].owner == m[address].owner
            &&& mk[address].bump == m[address].bump
            &&& mk[address].transaction_count == m[address].transaction_count + k
            &&& transfer_authorized(ns, pid, mk, address, signer)
        }),
    decreases k,
{
    if k > 0 {
        lemma_settled_transfers_count(ns, pid, m, address, signer, (k - 1) as nat);
    }
}

/// After initializing a wallet for `owner` and then `k` transfers by
/// `owner`, each settled by the external service, a query of the derived
/// address shows `owner` and a transaction count of exactly `k`.
pub proof fn lemma_query_consistency(
    ns: Seq<u8>,
    pid: Seq<u8>,
    m: Map<Seq<u8>, WalletSnapshot>,
    owner: Seq<u8>,
    bump: u8,
    k: nat,
)
    requires
        nonce_canonical(ns, owner, bump, pid),
        !m.contains_key(derived_address(ns, owner, bump, pid).unwrap()),
        k <= u64::MAX,
    ensures
        ({
            let a = derived_address(ns, owner, bump, pid).unwrap();
            let m1 = initialize_map(ns, pid, m, owner, bump);
            let mk = settled_transfers(ns, pid, m1, a, owner, k);
            &&& mk.contains_key(a)
            &&& mk[a].owner == owner
            &&& mk[a].transaction_count == k
        }),
{
    let a = derived_address(ns, owner, bump, pid).unwrap();
    let m1 = initialize_map(ns, pid, m, owner, bump);
    lemma_settled_transfers_count(ns, pid, m1, a, owner, k);
}

/// One wallet operation on the store, as far as it can change a record:
/// an initialization, or a transfer with what the external service reported.
/// Queries read only and are not listed.
pub enum StoreOp {
    Initialize { owner: Seq<u8>, bump: u8 },
    Transfer { address: Seq<u8>, signer: Seq<u8>, delegated: DelegatedTransfer },
}

/// The store after one operation.
pub open spec fn op_map(
    ns: Seq<u8>,
    pid: Seq<u8>,
    m: Map<Seq<u8>, WalletSnapshot>,
    op: StoreOp,
) -> Map<Seq<u8>, WalletSnapshot> {
    match op {
        StoreOp::Initialize { owner, bump } => initialize_map(ns, pid, m, owner, bump),
        StoreOp::Transfer { address, signer, delegated } => transfer_map(
            ns,
            pid,
            m,
            address,
            signer,
            delegated,
        ),
    }
}

/// The store after a sequence of operations, applied in order.
pub open spec fn ops_map(
    ns: Seq<u8>,
    pid: Seq<u8>,
    m: Map<Seq<u8>, WalletSnapshot>,
    ops: Seq<StoreOp>,
) -> Map<Seq<u8>, WalletSnapshot>
    decreases ops.len(),
{
    if ops.len() == 0 {
        m
    } else {
        op_map(ns, pid, ops_map(ns, pid, m, ops.drop_last()), ops.last())
    }
}

/// Whether one operation is a transfer at `address` that succeeds on `m`.
pub open spec fn op_settles_at(
    ns: Seq<u8>,
    pid: Seq<u8>,
    m: Map<Seq<u8>, WalletSnapshot>,
    op: StoreOp,
    a: Seq<u8>,
) -> bool {
    match op {
        StoreOp::Transfer { address, signer, delegated } => address == a && transfer_outcome(
            ns,
            pid,
            m,
            address,
            signer,
            delegated,
        ) is Ok,
        StoreOp::Initialize { .. } => false,
    }
}

/// Across one operation, an existing record keeps its owner and nonce,
/// and its transaction count never decreases: it grows by exactly one
/// when the operation is a transfer at that address that succeeds — on
/// which path the counter must have room left — and stays exactly as it
/// was otherwise.
pub proof fn lemma_op_monotonic(
    ns: Seq<u8>,
    pid: Seq<u8>,
    m: Map<Seq<u8>, WalletSnapshot>,
    op: StoreOp,
    a: Seq<u8>,
)
    requires
        m.contains_key(a),
        op_settles_at(ns, pid, m, op, a) ==> m[a].transaction_count < u64::MAX,
    ensures
        ({
            let m1 = op_map(ns, pid, m, op);
            &&& m1.contains_key(a)
            &&& m1[a].owner == m[a].owner
            &&& m1[a].bump == m[a].bump
            &&& m1[a].transaction_count >= m[a].transaction_count
            &&& if op_settles_at(ns, pid, m, op, a) {
                m1[a].transaction_count == m[a].transaction_count + 1
            } else {
                m1[a] == m[a]
            }
        }),
{
    match op {
        StoreOp::Initialize { owner, bump } => {
            let r = initialize_outcome(ns, pid, m, owner, bump);
            if r is Ok {
                assert(r.unwrap() != a);
            }
        },
        StoreOp::Transfer { address, signer, delegated } => {
            if transfer_authorized(ns, pid, m, address, signer) && delegated
                == DelegatedTransfer::Settled && address != a {
                assert(op_map(ns, pid, m, op)[a] == m[a]);
            }
        },
    }
}

/// Across any sequence of operations short enough that the counter
/// cannot reach its integer ceiling, an existing record keeps its owner
/// and nonce, and its transaction count never decreases and grows by at
/// most the number of operations; together with `lemma_op_monotonic`,
/// each single step adds exactly one on a settled transfer at the address
/// and nothing otherwise.
pub proof fn lemma_ops_monotonic(
    ns: Seq<u8>,
    pid: Seq<u8>,
    m: Map<Seq<u8>, WalletSnapshot>,
    ops: Seq<StoreOp>,
    a: Seq<u8>,
)
    requires
        m.contains_key(a),
        m[a].transaction_count + ops.len() <= u64::MAX,
    ensures
        ({
            let m1 = ops_map(ns, pid, m, ops);
            &&& m1.contains_key(a)
            &&& m1[a].owner == m[a].owner
            &&& m1[a].bump == m[a].bump
            &&& m1[a].transaction_count >= m[a].transaction_count
            &&& m1[a].transaction_count <= m[a].transaction_count + ops.len()
        }),
    decreases ops.len(),
{
    if ops.len() > 0 {
        lemma_ops_monotonic(ns, pid, m, ops.drop_last(), a);
        lemma_op_monotonic(ns, pid, ops_map(ns, pid, m, ops.drop_last()), ops.last(), a);
    }
}

} // verus!

