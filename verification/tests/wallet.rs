use zally_wallet::account_balance::{translate_account_balance, AccountBalanceRow};
use zally_wallet::boundary_error::{
    ChainSourceError, ChainSourceErrorKind, FailurePosture, SealingError, SealingErrorKind, StorageError,
    StorageErrorKind,
};
use zally_wallet::capabilities::{
    build_capabilities, capability_for_sealing, capability_for_storage, warns_of_plaintext,
    Capability, SealingCapability, StorageCapability,
};
use zally_wallet::circuit_breaker::CircuitBreakerState;
use zally_wallet::domain::{
    AccountId, BlockHeight, IdempotencyKey, Network, ProtocolPool, ReservationId, ShieldedPool,
    TxId, Zatoshis, MAX_MONEY,
};
use zally_wallet::error::WalletError;
use zally_wallet::exposed_address::{translate_exposed_addresses, ExposedAddressRow};
use zally_wallet::provisioning::{ProvisionEnd, ProvisionEvent, ProvisionRequest};
use zally_wallet::received_note::{translate_received_notes, ReceivedShieldedNoteRow};
use zally_wallet::reservation::{DispenseReservation, LockedNotesSummary};
use zally_wallet::retry::{CallEnd, RetryPolicy};
use zally_wallet::unspent_note::{translate_unspent_notes, UnspentShieldedNoteRow};
use zally_wallet::wallet::{clamp_unix_ms, lift_storage_to_wallet_error, Wallet};
use zally_wallet::wallet_options::WalletOptions;

fn zat(value: u64) -> Zatoshis {
    Zatoshis::from_u64(value).expect("zatoshis")
}

fn wallet() -> Wallet {
    Wallet::provisioned(
        Network::Testnet,
        SealingCapability::AgeFile,
        StorageCapability::Sqlite,
        WalletOptions::default(),
    )
}

#[test]
fn a_provisioned_wallet_has_its_defaults() {
    let mut wallet = wallet();
    assert_eq!(wallet.network(), Network::Testnet);
    assert_eq!(wallet.options().pending_broadcast_window_ms, 7_200_000);
    assert_eq!(wallet.retry_policy(), RetryPolicy::default());
    wallet.set_retry_policy(RetryPolicy::none());
    assert_eq!(wallet.retry_policy(), RetryPolicy::none());
    assert_eq!(
        WalletOptions::default()
            .with_pending_broadcast_window_ms(5)
            .pending_broadcast_window_ms,
        5
    );
}

#[test]
fn an_open_breaker_is_advertised_and_refuses_calls() {
    let mut wallet = wallet();
    assert_eq!(wallet.capabilities().features.len(), 11);
    for _ in 0..5 {
        let call = wallet.begin_call("read", 0).expect("closed");
        wallet.finish_call(call, CallEnd::Failed { retryable: true }, 0);
    }
    assert_eq!(wallet.circuit_breaker_state(), CircuitBreakerState::Open);
    let capabilities = wallet.capabilities();
    assert_eq!(capabilities.features.len(), 12);
    assert!(capabilities.features.contains(Capability::CircuitBroken));
    assert!(matches!(
        wallet.begin_call("read", 1),
        Err(WalletError::CircuitBroken { operation: "read" })
    ));
    let probe = wallet.begin_call("read", 60_000_000_000).expect("cooled");
    wallet.finish_call(probe, CallEnd::Succeeded, 60_000_000_000);
    assert_eq!(wallet.capabilities().features.len(), 11);
}

#[test]
fn capabilities_are_listed_in_order() {
    let capabilities = build_capabilities(
        Network::Mainnet,
        SealingCapability::Custom,
        StorageCapability::Custom,
    );
    let items = capabilities.features.items().clone();
    let mut sorted = items.clone();
    sorted.sort();
    sorted.dedup();
    assert_eq!(items, sorted);
    assert_eq!(items[0], Capability::Zip316UnifiedAddresses);
    assert_eq!(items[10], Capability::StatusSnapshot);
    assert_eq!(capabilities.clone(), capabilities);
}

#[test]
fn backends_are_recognised_by_type_name() {
    let sealing = |name| capability_for_sealing(name, true);
    assert_eq!(
        sealing("zally_keys::age::AgeFileSealing"),
        SealingCapability::AgeFile
    );
    assert_eq!(
        sealing("zally_keys::AgeFileSealing<Fs>"),
        SealingCapability::AgeFile
    );
    assert_eq!(
        sealing("zally_keys::InMemorySealing"),
        SealingCapability::InMemory
    );
    assert_eq!(
        sealing("zally_keys::PlaintextSealing"),
        SealingCapability::Plaintext
    );
    assert_eq!(
        capability_for_sealing("zally_keys::PlaintextSealing", false),
        SealingCapability::Custom
    );
    assert_eq!(sealing("mine::Vault"), SealingCapability::Custom);
    assert_eq!(
        capability_for_storage("zally_storage::SqliteWalletStorage"),
        StorageCapability::Sqlite
    );
    assert_eq!(
        capability_for_storage("mine::Memory"),
        StorageCapability::Custom
    );
    let plaintext = build_capabilities(
        Network::Regtest,
        SealingCapability::Plaintext,
        StorageCapability::Sqlite,
    );
    assert!(warns_of_plaintext(&plaintext, true));
    assert!(!warns_of_plaintext(&plaintext, false));
}

fn storage_failure(kind: StorageErrorKind) -> StorageError {
    StorageError::new(kind, FailurePosture::NotRetryable)
}

#[test]
fn only_an_unknown_account_is_lifted() {
    assert!(matches!(
        lift_storage_to_wallet_error(storage_failure(StorageErrorKind::AccountNotFound)),
        WalletError::AccountNotFound
    ));
    assert!(matches!(
        lift_storage_to_wallet_error(storage_failure(StorageErrorKind::NotOpened)),
        WalletError::Storage(_)
    ));
    assert_eq!(clamp_unix_ms(None), 0);
    assert_eq!(clamp_unix_ms(Some(1_700_000_000_000)), 1_700_000_000_000);
    assert_eq!(clamp_unix_ms(Some(u128::MAX)), u64::MAX);
}

fn failed(request: ProvisionRequest) -> WalletError {
    match request {
        ProvisionRequest::Finish(ProvisionEnd::Failed(error)) => error,
        other => panic!("expected a failure, got {other:?}"),
    }
}

fn provisioned_account(request: ProvisionRequest) -> AccountId {
    match request {
        ProvisionRequest::Finish(ProvisionEnd::Provisioned { account_id }) => account_id,
        other => panic!("expected an account, got {other:?}"),
    }
}

#[test]
fn provisioning_checks_the_chain_network_first() {
    assert!(matches!(
        Wallet::create(
            Network::Mainnet,
            Network::Regtest,
            Network::Testnet,
            BlockHeight::from(1)
        ),
        Err(WalletError::NetworkMismatch {
            storage: Network::Mainnet,
            requested: Network::Regtest
        })
    ));
    assert!(matches!(
        Wallet::open(Network::Regtest, Network::Testnet),
        Err(WalletError::NetworkMismatch {
            storage: Network::Testnet,
            requested: Network::Regtest
        })
    ));
}

#[test]
fn creating_a_wallet_seals_a_seed_and_creates_its_account() {
    let regtest = Network::Regtest;
    let (flow, request) =
        Wallet::create(regtest, regtest, regtest, BlockHeight::from(8)).expect("same networks");
    assert!(matches!(request, ProvisionRequest::OpenStorage));
    let (flow, request) = flow.step(ProvisionEvent::Done);
    assert!(matches!(request, ProvisionRequest::Unseal));
    let (fresh, request) = flow.step(ProvisionEvent::Unsealed(Err(
        SealingError::no_sealed_seed(),
    )));
    assert!(matches!(request, ProvisionRequest::SealFreshSeed));
    let (fresh, request) = fresh.step(ProvisionEvent::Done);
    assert!(matches!(
        request,
        ProvisionRequest::FetchTreeState { height } if height == BlockHeight::from(7)
    ));
    let (created, request) = fresh.step(ProvisionEvent::Done);
    assert!(matches!(request, ProvisionRequest::CreateAccount));
    let (_, request) = created.step(ProvisionEvent::Created(AccountId(6)));
    assert_eq!(provisioned_account(request), AccountId(6));

    let mismatch = ChainSourceErrorKind::TreeStateAnchorHeightMismatch {
        requested_height: BlockHeight::from(7),
        returned_height: BlockHeight::from(8),
    };
    let (_, request) = fresh.step(ProvisionEvent::Failed(WalletError::ChainSource(
        ChainSourceError::malformed(mismatch),
    )));
    match failed(request) {
        WalletError::ChainSource(error) => assert!(matches!(
            error.kind,
            ChainSourceErrorKind::TreeStateAnchorHeightMismatch {
                requested_height: BlockHeight(7),
                returned_height: BlockHeight(8),
            }
        )),
        other => panic!("expected a chain-source failure, got {other:?}"),
    }

    let (sealed, request) = flow.step(ProvisionEvent::Unsealed(Ok(())));
    assert!(matches!(request, ProvisionRequest::FindAccount));
    for found in [None, Some(AccountId(1))] {
        let (_, request) = sealed.step(ProvisionEvent::Account(found));
        assert!(matches!(
            failed(request),
            WalletError::AccountAlreadyExists
        ));
    }
    let (_, request) = flow.step(ProvisionEvent::Unsealed(Err(SealingError {
        kind: SealingErrorKind::Other {
            reason: "locked".into(),
        },
        is_retryable: true,
    })));
    assert!(matches!(failed(request), WalletError::Sealing(_)));
}

#[test]
fn opening_needs_a_seed_and_its_account() {
    let (flow, _) = Wallet::open(Network::Regtest, Network::Regtest).expect("same network");
    let (flow, _) = flow.step(ProvisionEvent::Done);
    let (_, request) = flow.step(ProvisionEvent::Unsealed(Err(
        SealingError::no_sealed_seed(),
    )));
    assert!(matches!(failed(request), WalletError::NoSealedSeed));
    let (flow, _) = flow.step(ProvisionEvent::Unsealed(Ok(())));
    let (_, request) = flow.step(ProvisionEvent::Account(None));
    assert!(matches!(failed(request), WalletError::AccountNotFound));
    let (_, request) = flow.step(ProvisionEvent::Account(Some(AccountId(3))));
    assert_eq!(provisioned_account(request), AccountId(3));
    assert!(flow.accepts(&ProvisionEvent::Account(None)));
    assert!(!flow.accepts(&ProvisionEvent::Done));
}

#[test]
fn opening_on_a_fresh_volume_creates_the_account() {
    let regtest = Network::Regtest;
    let (flow, _) =
        Wallet::open_or_create_account(regtest, regtest, regtest, BlockHeight::from(0))
            .expect("same networks");
    let (flow, _) = flow.step(ProvisionEvent::Done);
    let (flow, _) = flow.step(ProvisionEvent::Unsealed(Ok(())));
    let (_, request) = flow.step(ProvisionEvent::Account(Some(AccountId(3))));
    assert_eq!(provisioned_account(request), AccountId(3));
    let (_, request) = flow.step(ProvisionEvent::Account(None));
    assert!(matches!(
        request,
        ProvisionRequest::FetchTreeState { height } if height == BlockHeight::from(0)
    ));
    let (_, request) = flow.step(ProvisionEvent::Failed(WalletError::AccountNotFound));
    assert!(matches!(failed(request), WalletError::AccountNotFound));
}

#[test]
fn balances_add_up_to_at_most_the_money_supply() {
    let row = AccountBalanceRow {
        sapling_zat: zat(1),
        orchard_zat: zat(2),
        ironwood_zat: zat(3),
        transparent_mature_zat: zat(10),
        transparent_immature_zat: zat(20),
        as_of_height: Some(BlockHeight::from(4)),
    };
    let balance = translate_account_balance(row, Network::Mainnet);
    assert_eq!(balance.network, Network::Mainnet);
    assert_eq!(balance.shielded_zat(), zat(6));
    assert_eq!(balance.transparent_zat(), zat(30));
    assert_eq!(balance.total_zat(), zat(36));
    let rich = translate_account_balance(
        AccountBalanceRow {
            sapling_zat: zat(MAX_MONEY),
            ..row
        },
        Network::Mainnet,
    );
    assert_eq!(rich.total_zat(), zat(MAX_MONEY));
    assert!(Zatoshis::from_u64(MAX_MONEY + 1).is_none());
}

#[test]
fn notes_are_confirmed_against_the_observed_tip() {
    let row = UnspentShieldedNoteRow {
        protocol: ProtocolPool::Orchard,
        value_zat: 77,
        tx_id: TxId::from_bytes([1; 32]),
        output_index: 2,
        mined_height: BlockHeight::from(100),
    };
    let overdrawn = UnspentShieldedNoteRow {
        value_zat: MAX_MONEY + 1,
        ..row
    };
    let notes = translate_unspent_notes(&vec![row, overdrawn], Some(BlockHeight::from(100)));
    assert_eq!(notes[0].confirmations, 1);
    assert_eq!(notes[0].pool, ShieldedPool::Orchard);
    assert_eq!(notes[0].value, zat(77));
    assert_eq!(notes[1].value, Zatoshis::zero());
    let above = translate_unspent_notes(&vec![row], Some(BlockHeight::from(99)));
    assert_eq!(above[0].confirmations, 0);
    let unknown = translate_unspent_notes(&vec![row], None);
    assert_eq!(unknown[0].confirmations, 0);
    let everything = translate_unspent_notes(
        &vec![UnspentShieldedNoteRow {
            mined_height: BlockHeight::from(0),
            ..row
        }],
        Some(BlockHeight::from(u32::MAX)),
    );
    assert_eq!(everything[0].confirmations, u32::MAX);
}

#[test]
fn received_notes_keep_their_provenance() {
    let row = ReceivedShieldedNoteRow {
        account_id: AccountId(1),
        protocol: ProtocolPool::Ironwood,
        value_zat: 5,
        tx_id: TxId::from_bytes([1; 32]),
        output_index: 2,
        mined_height: BlockHeight::from(100),
        block_timestamp_ms: 9,
        is_change: true,
        spent_our_inputs: false,
    };
    let records = translate_received_notes(&vec![row]);
    assert_eq!(records[0].pool, ShieldedPool::Ironwood);
    assert!(records[0].is_change);
    assert!(!records[0].spent_our_inputs);
    assert_eq!(records[0].value, zat(5));
}

#[test]
fn exposed_addresses_keep_their_order() {
    let parsed = |encoded: &str| {
        let address: zcash_keys::address::Address = encoded
            .parse::<zcash_address::ZcashAddress>()
            .expect("address")
            .convert_if_network(zcash_protocol::consensus::NetworkType::Main)
            .expect("mainnet");
        match address {
            zcash_keys::address::Address::Unified(unified) => *unified,
            other => panic!("expected a unified address, got {other:?}"),
        }
    };
    let first = parsed("u1ddnjsdcpm36r6aq79n3s68shjweksnmwtdltrh046s8m6xcws9ygyawalxx8n6hg6vegk0wh8zjnafxgh6msppjsljvyt0ynece3lvm0");
    let second = parsed("u1nztelxna9h7w0vtpd2xjhxt4lpu8s9cmdl8n8vcr7actf2ny45nd07cy8cyuhuvw3axcp545y0ktq9cezuzx84jyhex8dk4tdvwhu4dl");
    let rows = vec![
        ExposedAddressRow {
            unified_address: first.clone(),
            diversifier_index: zip32::DiversifierIndex::from(1u32),
            has_transparent_receiver: false,
            exposed_at_height: None,
        },
        ExposedAddressRow {
            unified_address: second.clone(),
            diversifier_index: zip32::DiversifierIndex::from(2u32),
            has_transparent_receiver: true,
            exposed_at_height: Some(BlockHeight::from(3)),
        },
    ];
    let addresses = translate_exposed_addresses(rows, Network::Mainnet);
    assert_eq!(addresses.len(), 2);
    assert_eq!(addresses[0].unified_address, first);
    assert_eq!(addresses[1].unified_address, second);
    assert_eq!(
        addresses[1].diversifier_index,
        zip32::DiversifierIndex::from(2u32)
    );
    assert_eq!(addresses[1].exposed_at_height, Some(BlockHeight::from(3)));
}

#[test]
fn reservations_carry_their_summary() {
    let summary = LockedNotesSummary::new(4, zat(8));
    let reservation = DispenseReservation {
        network: Network::Mainnet,
        reservation_id: ReservationId(1),
        request_id: IdempotencyKey {
            text: "request".into(),
        },
        idempotency_key: IdempotencyKey {
            text: "broadcast".into(),
        },
        amount_zat: zat(8),
        locked_notes_summary: summary,
        available_after_release_zat: zat(20),
    };
    assert_eq!(reservation.locked_notes_summary.note_count, 4);
    assert_eq!(reservation.locked_notes_summary.total_locked_zat, zat(8));
}
