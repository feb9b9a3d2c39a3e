use wallet_program::account::AccountId;
use wallet_program::address::derive_address;
use wallet_program::address::validate;
use wallet_program::errors::WalletError;
use wallet_program::program::get_wallet_info;
use wallet_program::program::initialize_wallet;
use wallet_program::program::prepare_transfer;
use wallet_program::program::transfer_tokens;
use wallet_program::program::DelegatedTransfer;
use wallet_program::program::GetWalletInfo;
use wallet_program::program::InitializeWallet;
use wallet_program::program::ProgramConfig;
use wallet_program::program::TransferTokens;
use wallet_program::store::WalletStore;

fn test_config() -> ProgramConfig {
    ProgramConfig { namespace: b"wallet".to_vec(), program_id: AccountId::new([7u8; 32]) }
}

/// The largest nonce for which derivation succeeds, as the host runtime
/// would pick it.
fn canonical_bump(cfg: &ProgramConfig, owner: &AccountId) -> u8 {
    let mut bump: u8 = 255;
    loop {
        if derive_address(&cfg.namespace, owner, bump, &cfg.program_id).is_some() {
            return bump;
        }
        assert!(bump > 0, "no nonce derives an address");
        bump -= 1;
    }
}

fn transfer_request(wallet: AccountId, signer: AccountId) -> TransferTokens {
    TransferTokens {
        wallet,
        from_token_account: AccountId::new([2u8; 32]),
        to_token_account: AccountId::new([3u8; 32]),
        owner: signer,
    }
}

#[test]
fn init_first_succeeds_second_fails() {
    let cfg = test_config();
    let mut store = WalletStore::new();
    let owner = AccountId::new([11u8; 32]);
    let bump = canonical_bump(&cfg, &owner);

    let address = initialize_wallet(&cfg, &mut store, &InitializeWallet { owner }, bump)
        .expect("first initialization succeeds");
    let info = get_wallet_info(&cfg, &store, &GetWalletInfo { wallet: address }).unwrap();
    assert_eq!(info.owner, owner);
    assert_eq!(info.transaction_count, 0);

    let second = initialize_wallet(&cfg, &mut store, &InitializeWallet { owner }, bump);
    assert_eq!(second, Err(WalletError::AlreadyExists));
    let info = get_wallet_info(&cfg, &store, &GetWalletInfo { wallet: address }).unwrap();
    assert_eq!(info.transaction_count, 0);

    // A second record for the same owner cannot be created under any
    // other nonce either: only the canonical nonce is accepted.
    let mut lower: u8 = bump - 1;
    loop {
        if derive_address(&cfg.namespace, &owner, lower, &cfg.program_id).is_some() {
            break;
        }
        assert!(lower > 0, "no lower nonce derives an address");
        lower -= 1;
    }
    let third = initialize_wallet(&cfg, &mut store, &InitializeWallet { owner }, lower);
    assert_eq!(third, Err(WalletError::AddressMismatch));
}

#[test]
fn non_canonical_nonce_is_rejected_at_initialization() {
    let cfg = test_config();
    let mut store = WalletStore::new();
    let owner = AccountId::new([11u8; 32]);
    let bump = canonical_bump(&cfg, &owner);

    // A valid but non-canonical nonce derives an address, yet the wallet
    // may only ever live at the canonical one.
    let mut lower: u8 = bump - 1;
    loop {
        if derive_address(&cfg.namespace, &owner, lower, &cfg.program_id).is_some() {
            break;
        }
        assert!(lower > 0, "no lower nonce derives an address");
        lower -= 1;
    }
    let r = initialize_wallet(&cfg, &mut store, &InitializeWallet { owner }, lower);
    assert_eq!(r, Err(WalletError::AddressMismatch));

    // The canonical nonce still succeeds afterwards.
    initialize_wallet(&cfg, &mut store, &InitializeWallet { owner }, bump).unwrap();
}

#[test]
fn derivation_is_deterministic_and_input_sensitive() {
    let cfg = test_config();
    let owner = AccountId::new([11u8; 32]);
    let other = AccountId::new([12u8; 32]);
    let bump = canonical_bump(&cfg, &owner);

    let a1 = derive_address(&cfg.namespace, &owner, bump, &cfg.program_id).unwrap();
    let a2 = derive_address(&cfg.namespace, &owner, bump, &cfg.program_id).unwrap();
    assert_eq!(a1, a2);

    // Changing the owner changes the address.
    let other_bump = canonical_bump(&cfg, &other);
    let b = derive_address(&cfg.namespace, &other, other_bump, &cfg.program_id).unwrap();
    assert_ne!(a1, b);

    // Changing the nonce changes the address.
    let mut lower: u8 = bump - 1;
    let c = loop {
        if let Some(c) = derive_address(&cfg.namespace, &owner, lower, &cfg.program_id) {
            break c;
        }
        lower -= 1;
    };
    assert_ne!(a1, c);
}

#[test]
fn derivation_matches_host_runtime() {
    // The trusted derivation must agree with the address and nonce that
    // the host runtime itself assigns for the same seeds.
    let cfg = test_config();
    let owner = AccountId::new([11u8; 32]);
    let pid = solana_pubkey::Pubkey::new_from_array(cfg.program_id.bytes);
    let (expected, bump) =
        solana_pubkey::Pubkey::find_program_address(&[b"wallet", &owner.bytes], &pid);

    let derived = derive_address(&cfg.namespace, &owner, bump, &cfg.program_id).unwrap();
    assert_eq!(derived.bytes, expected.to_bytes());
    assert!(validate(&derived, &cfg.namespace, &owner, bump, &cfg.program_id));
    assert!(!validate(&AccountId::new([9u8; 32]), &cfg.namespace, &owner, bump, &cfg.program_id));
}

#[test]
fn unauthorized_transfer_is_rejected_before_any_action() {
    let cfg = test_config();
    let mut store = WalletStore::new();
    let owner = AccountId::new([11u8; 32]);
    let intruder = AccountId::new([13u8; 32]);
    let bump = canonical_bump(&cfg, &owner);
    let address = initialize_wallet(&cfg, &mut store, &InitializeWallet { owner }, bump).unwrap();

    let req = transfer_request(address, intruder);
    // No action is handed out, so the token service is never invoked.
    let prepared = prepare_transfer(&cfg, &store, &req, 5);
    assert!(matches!(prepared, Err(WalletError::Unauthorized)));

    let r = transfer_tokens(&cfg, &mut store, &req, 5, DelegatedTransfer::Settled);
    assert_eq!(r, Err(WalletError::Unauthorized));
    let info = get_wallet_info(&cfg, &store, &GetWalletInfo { wallet: address }).unwrap();
    assert_eq!(info.transaction_count, 0);
}

#[test]
fn settled_transfer_increments_count_for_any_amount() {
    let cfg = test_config();
    let mut store = WalletStore::new();
    let owner = AccountId::new([11u8; 32]);
    let bump = canonical_bump(&cfg, &owner);
    let address = initialize_wallet(&cfg, &mut store, &InitializeWallet { owner }, bump).unwrap();

    let req = transfer_request(address, owner);
    let action = prepare_transfer(&cfg, &store, &req, 1).unwrap();
    assert_eq!(action.from, req.from_token_account);
    assert_eq!(action.to, req.to_token_account);
    assert_eq!(action.authority, owner);
    assert_eq!(action.amount, 1);

    let r = transfer_tokens(&cfg, &mut store, &req, 1, DelegatedTransfer::Settled);
    assert_eq!(r, Ok(1));
    let r = transfer_tokens(&cfg, &mut store, &req, u64::MAX, DelegatedTransfer::Settled);
    assert_eq!(r, Ok(2));
    let r = transfer_tokens(&cfg, &mut store, &req, 0, DelegatedTransfer::Settled);
    assert_eq!(r, Ok(3));
}

#[test]
fn failed_delegated_transfer_changes_nothing() {
    let cfg = test_config();
    let mut store = WalletStore::new();
    let owner = AccountId::new([11u8; 32]);
    let bump = canonical_bump(&cfg, &owner);
    let address = initialize_wallet(&cfg, &mut store, &InitializeWallet { owner }, bump).unwrap();

    let req = transfer_request(address, owner);
    let r = transfer_tokens(&cfg, &mut store, &req, 5, DelegatedTransfer::Failed);
    assert_eq!(r, Err(WalletError::DelegatedTransferFailed));
    let info = get_wallet_info(&cfg, &store, &GetWalletInfo { wallet: address }).unwrap();
    assert_eq!(info.transaction_count, 0);
}

#[test]
fn query_counts_settled_transfers() {
    let cfg = test_config();
    let mut store = WalletStore::new();
    let owner = AccountId::new([11u8; 32]);
    let bump = canonical_bump(&cfg, &owner);
    let address = initialize_wallet(&cfg, &mut store, &InitializeWallet { owner }, bump).unwrap();

    let req = transfer_request(address, owner);
    for _ in 0..4 {
        transfer_tokens(&cfg, &mut store, &req, 10, DelegatedTransfer::Settled).unwrap();
    }
    let info = get_wallet_info(&cfg, &store, &GetWalletInfo { wallet: address }).unwrap();
    assert_eq!(info.owner, owner);
    assert_eq!(info.transaction_count, 4);
}

#[test]
fn count_is_monotone_across_mixed_operations() {
    let cfg = test_config();
    let mut store = WalletStore::new();
    let owner = AccountId::new([11u8; 32]);
    let intruder = AccountId::new([13u8; 32]);
    let bump = canonical_bump(&cfg, &owner);
    let address = initialize_wallet(&cfg, &mut store, &InitializeWallet { owner }, bump).unwrap();

    let outcomes = [
        DelegatedTransfer::Settled,
        DelegatedTransfer::Failed,
        DelegatedTransfer::Settled,
        DelegatedTransfer::Settled,
        DelegatedTransfer::Failed,
    ];
    let mut last: u64 = 0;
    let mut settled: u64 = 0;
    for outcome in outcomes {
        let _ = transfer_tokens(&cfg, &mut store, &transfer_request(address, intruder), 1, outcome);
        let r = transfer_tokens(&cfg, &mut store, &transfer_request(address, owner), 1, outcome);
        if outcome == DelegatedTransfer::Settled {
            settled += 1;
            assert_eq!(r, Ok(settled));
        }
        let now =
            get_wallet_info(&cfg, &store, &GetWalletInfo { wallet: address }).unwrap().transaction_count;
        assert!(now >= last);
        assert!(now <= last + 1);
        last = now;
    }
    assert_eq!(last, 3);
}

#[test]
fn absent_records_are_not_found() {
    let cfg = test_config();
    let mut store = WalletStore::new();
    let ghost_address = AccountId::new([42u8; 32]);

    let q = get_wallet_info(&cfg, &store, &GetWalletInfo { wallet: ghost_address });
    assert!(matches!(q, Err(WalletError::NotFound)));
    let req = transfer_request(ghost_address, AccountId::new([11u8; 32]));
    let r = transfer_tokens(&cfg, &mut store, &req, 1, DelegatedTransfer::Settled);
    assert_eq!(r, Err(WalletError::NotFound));
    let p = prepare_transfer(&cfg, &store, &req, 1);
    assert!(matches!(p, Err(WalletError::NotFound)));
}

#[test]
fn corrupt_addressing_is_a_mismatch() {
    // A record parked at an address that its own fields do not re-derive
    // is treated as corrupt: the transfer aborts before authorization.
    let cfg = test_config();
    let mut store = WalletStore::new();
    let owner = AccountId::new([11u8; 32]);
    let bogus_address = AccountId::new([42u8; 32]);
    store.create(&bogus_address, &owner, 255).unwrap();

    let req = transfer_request(bogus_address, owner);
    let r = transfer_tokens(&cfg, &mut store, &req, 1, DelegatedTransfer::Settled);
    assert_eq!(r, Err(WalletError::AddressMismatch));
    let p = prepare_transfer(&cfg, &store, &req, 1);
    assert!(matches!(p, Err(WalletError::AddressMismatch)));

    // A query refuses the corrupt record too: none of its data is served.
    let q = get_wallet_info(&cfg, &store, &GetWalletInfo { wallet: bogus_address });
    assert!(matches!(q, Err(WalletError::AddressMismatch)));
}

#[test]
fn store_reads_and_guard() {
    let mut store = WalletStore::new();
    let owner = AccountId::new([11u8; 32]);
    let address = AccountId::new([21u8; 32]);
    store.create(&address, &owner, 200).unwrap();
    assert_eq!(store.create(&address, &owner, 200), Err(WalletError::AlreadyExists));

    let record = store.read(&address).unwrap();
    assert_eq!(record.owner, owner);
    assert_eq!(record.bump, 200);
    assert_eq!(record.transaction_count, 0);
    assert!(matches!(store.read(&AccountId::new([22u8; 32])), Err(WalletError::NotFound)));

    assert!(wallet_program::program::authorize(&record, &owner).is_ok());
    assert_eq!(
        wallet_program::program::authorize(&record, &AccountId::new([13u8; 32])),
        Err(WalletError::Unauthorized)
    );

    assert_eq!(store.increment_counter(&address), Ok(1));
    assert_eq!(store.increment_counter(&address), Ok(2));
    assert_eq!(
        store.increment_counter(&AccountId::new([22u8; 32])),
        Err(WalletError::NotFound)
    );
}
