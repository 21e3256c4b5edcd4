use dash_evo_tool::asset_lock_proof::{
    AssetLockProof, ChainAssetLockProof, InstantAssetLockProof, RawTransactionInfo,
};
use dash_evo_tool::chain::{Address, AddressKind, Network, OutPoint, TxOut};
use dash_evo_tool::context::AppContext;
use dash_evo_tool::database::{AssetLockRow, Database};
use dash_evo_tool::finality::{FinalityStatus, FinalityTracker};
use dash_evo_tool::funding::{AssetLockFunding, FundingError, FundingInput};
use dash_evo_tool::helpers::{Purpose, SecurityLevel};
use dash_evo_tool::identity::{Identity, IdentityStatus, QualifiedIdentity};
use dash_evo_tool::key_storage::KeyStorage;
use dash_evo_tool::registration::{
    IdentityRegistrationInfo, RegisterIdentityFundingMethod, Registration, RegistrationAction,
    RegistrationError, RegistrationErrorKind, RegistrationEvent, RegistrationPhase,
    SubmissionFailure, ASSET_LOCK_FEE, MAX_SUBMISSIONS,
};
use dash_evo_tool::derivation::{DerivationPath, DerivationPathReference, DerivationPathType};
use dash_evo_tool::wallet::{KnownAddress, UnusedAssetLock, Utxo, Wallet, WalletInfo};
use dash_evo_tool::wallet_seed::{ClosedKeyItem, WalletSeed};

const NETWORK: Network = Network::Testnet;

struct World {
    wallet: Wallet,
    tracker: FinalityTracker,
    db: Database,
}

fn seed_hash() -> [u8; 32] {
    [0x11; 32]
}

fn address() -> Address {
    Address { network: NETWORK, kind: AddressKind::PubkeyHash, hash: [5u8; 20] }
}

fn outpoint(tag: u8) -> OutPoint {
    OutPoint { txid: [tag; 32], vout: 0 }
}

fn output(value: u64) -> TxOut {
    TxOut { value, script_pubkey: vec![0xac] }
}

fn world(utxos: &[(u8, u64)]) -> World {
    let stored = ClosedKeyItem {
        seed_hash: seed_hash(),
        encrypted_seed: vec![0u8; 64],
        salt: vec![],
        nonce: vec![],
        password_hint: None,
    };
    let mut wallet = Wallet::new(WalletInfo {
        wallet_seed: WalletSeed::from_stored(stored, false).expect("an open seed"),
        uses_password: false,
        master_bip44_ecdsa_extended_public_key: vec![],
        alias: None,
        is_main: true,
    });
    wallet.register_address(KnownAddress {
        address: address(),
        derivation_path: DerivationPath { components: vec![0] },
        path_reference: DerivationPathReference::BIP44,
        path_type: DerivationPathType { bits: 1 },
    });
    let mut db = Database::new();
    db.store_wallet(&wallet, &NETWORK).unwrap();
    for (tag, value) in utxos {
        wallet.add_utxo(address(), outpoint(*tag), output(*value)).unwrap();
        db.insert_utxo(
            &Utxo { outpoint: outpoint(*tag), address: address(), output: output(*value) },
            &NETWORK,
        );
    }
    World { wallet, tracker: FinalityTracker::new(), db }
}

/// The keys that every registration of these tests is given.
fn keys() -> KeyStorage {
    let mut keys = KeyStorage::new();
    keys.insert_non_encrypted(
        Purpose::AUTHENTICATION,
        0,
        SecurityLevel::MASTER,
        vec![2; 33],
        [7; 32],
    );
    keys.insert_non_encrypted(Purpose::TRANSFER, 1, SecurityLevel::CRITICAL, vec![3; 33], [8; 32]);
    keys
}

fn registration(method: RegisterIdentityFundingMethod, alias: &str) -> Registration {
    Registration::new(
        IdentityRegistrationInfo {
            alias_input: alias.to_string(),
            keys: keys(),
            wallet_identity_index: 7,
            identity_funding_method: method,
        },
        NETWORK,
        ASSET_LOCK_FEE,
        None,
    )
}

fn step(world: &mut World, registration: &mut Registration, event: RegistrationEvent) -> RegistrationAction {
    registration.step(&mut world.wallet, &mut world.tracker, &mut world.db, event)
}

fn instant(tag: u8) -> AssetLockProof {
    AssetLockProof::Instant(InstantAssetLockProof {
        instant_lock: vec![1, 2, 3],
        transaction: vec![4, 5],
        txid: [tag; 32],
        output_index: 0,
    })
}

fn chain(tag: u8, height: u32) -> AssetLockProof {
    AssetLockProof::Chain(ChainAssetLockProof {
        core_chain_locked_height: height,
        out_point: outpoint(tag),
    })
}

fn failure(kind: RegistrationErrorKind, detail: &str) -> RegistrationAction {
    RegistrationAction::ReportFailure(RegistrationError { kind, detail: detail.to_string() })
}

const FUNDING_TX: u8 = 0xf0;
const IDENTITY: [u8; 32] = [0x1d; 32];

/// Drives a registration funded from the wallet's balance up to the point
/// where the registration has been sent to the platform.
fn fund_and_submit(world: &mut World, registration: &mut Registration) {
    assert_eq!(step(world, registration, RegistrationEvent::Start), RegistrationAction::FetchMetadata);
    let action = step(world, registration, RegistrationEvent::Metadata(Ok(900)));
    assert!(matches!(action, RegistrationAction::Sign(_)));
    assert_eq!(
        step(world, registration, RegistrationEvent::Signed(Ok([FUNDING_TX; 32]))),
        RegistrationAction::Broadcast([FUNDING_TX; 32])
    );
    assert_eq!(
        step(world, registration, RegistrationEvent::Broadcast(Ok(()))),
        RegistrationAction::Sleep(200)
    );
    assert!(world.tracker.resolve([FUNDING_TX; 32], instant(FUNDING_TX)));
    assert_eq!(
        step(world, registration, RegistrationEvent::Woke),
        RegistrationAction::CheckIdentity(instant(FUNDING_TX))
    );
    assert_eq!(
        step(world, registration, RegistrationEvent::IdentityChecked(Ok((IDENTITY, false)))),
        RegistrationAction::Submit(Identity { id: IDENTITY, balance: 0, revision: 0 }, instant(FUNDING_TX))
    );
}

#[test]
fn fund_with_wallet_balance_from_one_utxo_registers_the_identity() {
    let amount = 100_000;
    let value = amount + ASSET_LOCK_FEE + 1;
    let mut w = world(&[(1, value)]);
    let mut r = registration(RegisterIdentityFundingMethod::FundWithWallet(amount, 7), "alice");

    assert_eq!(step(&mut w, &mut r, RegistrationEvent::Start), RegistrationAction::FetchMetadata);
    assert_eq!(r.phase, RegistrationPhase::AwaitingMetadata);

    let action = step(&mut w, &mut r, RegistrationEvent::Metadata(Ok(900)));
    let expected_funding = AssetLockFunding {
        inputs: vec![FundingInput { outpoint: outpoint(1), address: address(), value }],
        credit_amount: amount,
        change: 1,
        fee: ASSET_LOCK_FEE,
        identity_index: 7,
    };
    assert_eq!(action, RegistrationAction::Sign(expected_funding.clone()));
    assert_eq!(r.core_chain_locked_height, 900);
    assert!(w.wallet.is_reserved(&outpoint(1)));
    assert!(w.wallet.contains_utxo(&outpoint(1)));

    let action = step(&mut w, &mut r, RegistrationEvent::Signed(Ok([FUNDING_TX; 32])));
    assert_eq!(action, RegistrationAction::Broadcast([FUNDING_TX; 32]));
    assert_eq!(w.tracker.status(&[FUNDING_TX; 32]), FinalityStatus::Pending);
    assert!(w.wallet.contains_utxo(&outpoint(1)));
    assert!(w.db.has_utxo(&outpoint(1), &NETWORK));

    let action = step(&mut w, &mut r, RegistrationEvent::Broadcast(Ok(())));
    assert_eq!(action, RegistrationAction::Sleep(200));
    assert_eq!(r.phase, RegistrationPhase::AwaitingProof);
    assert!(!w.wallet.contains_utxo(&outpoint(1)));
    assert!(!w.db.has_utxo(&outpoint(1), &NETWORK));
    assert_eq!(w.wallet.utxo_count(), 0);
    assert_eq!(w.wallet.balance_of(&address()), 0);
    assert!(!w.wallet.has_utxos_for(&address()));
    assert!(w.wallet.known_address(&address()).is_some());

    assert_eq!(step(&mut w, &mut r, RegistrationEvent::Woke), RegistrationAction::Sleep(200));
    assert_eq!(r.waited_ms, 200);
    assert!(w.tracker.resolve([FUNDING_TX; 32], instant(FUNDING_TX)));
    let action = step(&mut w, &mut r, RegistrationEvent::Woke);
    assert_eq!(action, RegistrationAction::CheckIdentity(instant(FUNDING_TX)));
    assert_eq!(r.waited_ms, 400);

    let action = step(&mut w, &mut r, RegistrationEvent::IdentityChecked(Ok((IDENTITY, false))));
    let local = Identity { id: IDENTITY, balance: 0, revision: 0 };
    assert_eq!(action, RegistrationAction::Submit(local, instant(FUNDING_TX)));
    assert_eq!(
        w.db.identity_status(&IDENTITY, &NETWORK),
        Some(IdentityStatus::PendingCreation)
    );
    assert_eq!(r.submissions, 1);

    let registered = Identity { id: IDENTITY, balance: 99_000_000, revision: 1 };
    let action = step(&mut w, &mut r, RegistrationEvent::Submitted(Ok(registered)));
    let expected = QualifiedIdentity {
        identity: registered,
        alias: Some("alice".to_string()),
        private_keys: keys(),
        associated_wallet: Some(seed_hash()),
        wallet_index: Some(7),
        status: IdentityStatus::Unknown,
    };
    assert_eq!(action, RegistrationAction::ReportSuccess(expected.clone()));
    assert_eq!(r.phase, RegistrationPhase::Registered);
    assert_eq!(r.identity, Some(expected));
    assert!(r.is_finished());
    assert_eq!(w.db.identity_status(&IDENTITY, &NETWORK), Some(IdentityStatus::Unknown));
    assert_eq!(w.wallet.identity(7), Some(local));
}

#[test]
fn explicit_utxo_not_owned_fails_before_any_broadcast() {
    let mut w = world(&[(1, 50_000)]);
    let mut r = registration(
        RegisterIdentityFundingMethod::FundWithUtxo(outpoint(2), output(50_000), address(), 7),
        "",
    );
    step(&mut w, &mut r, RegistrationEvent::Start);
    let action = step(&mut w, &mut r, RegistrationEvent::Metadata(Ok(1)));
    assert_eq!(
        action,
        failure(RegistrationErrorKind::Funding(FundingError::UtxoNotOwned), "")
    );
    assert_eq!(r.phase, RegistrationPhase::Failed);
    assert_eq!(r.txid, None);
    assert_eq!(w.tracker.len(), 0);
    assert!(!w.wallet.is_reserved(&outpoint(1)));
    assert!(w.db.has_utxo(&outpoint(1), &NETWORK));
    assert_eq!(
        step(&mut w, &mut r, RegistrationEvent::Broadcast(Ok(()))),
        RegistrationAction::Nothing
    );
    assert_eq!(
        r.error.as_ref().unwrap().message(),
        "The wallet does not hold the unspent output"
    );
}

#[test]
fn explicit_utxo_is_spent_and_removed_after_broadcast() {
    let mut w = world(&[(1, 50_000), (2, 60_000)]);
    let mut r = registration(
        RegisterIdentityFundingMethod::FundWithUtxo(outpoint(2), output(60_000), address(), 7),
        "",
    );
    step(&mut w, &mut r, RegistrationEvent::Start);
    let action = step(&mut w, &mut r, RegistrationEvent::Metadata(Ok(1)));
    match action {
        RegistrationAction::Sign(funding) => {
            assert_eq!(funding.credit_amount, 60_000 - ASSET_LOCK_FEE);
            assert_eq!(funding.outpoints(), vec![outpoint(2)]);
        }
        other => panic!("expected a transaction to sign, got {:?}", other),
    }
    step(&mut w, &mut r, RegistrationEvent::Signed(Ok([FUNDING_TX; 32])));
    step(&mut w, &mut r, RegistrationEvent::Broadcast(Ok(())));
    assert!(w.wallet.contains_utxo(&outpoint(1)));
    assert!(!w.wallet.contains_utxo(&outpoint(2)));
    assert!(w.db.has_utxo(&outpoint(1), &NETWORK));
    assert!(!w.db.has_utxo(&outpoint(2), &NETWORK));
    assert_eq!(w.wallet.balance_of(&address()), 50_000);
}

#[test]
fn second_registration_with_the_same_utxo_observes_it_reserved_then_removed() {
    let mut w = world(&[(1, 50_000)]);
    let method = || RegisterIdentityFundingMethod::FundWithUtxo(outpoint(1), output(50_000), address(), 7);
    let mut first = registration(method(), "");
    let mut second = registration(method(), "");
    step(&mut w, &mut first, RegistrationEvent::Start);
    step(&mut w, &mut second, RegistrationEvent::Start);
    assert!(matches!(
        step(&mut w, &mut first, RegistrationEvent::Metadata(Ok(1))),
        RegistrationAction::Sign(_)
    ));
    assert_eq!(
        step(&mut w, &mut second, RegistrationEvent::Metadata(Ok(1))),
        failure(RegistrationErrorKind::Funding(FundingError::UtxoReserved), "")
    );
    step(&mut w, &mut first, RegistrationEvent::Signed(Ok([FUNDING_TX; 32])));
    step(&mut w, &mut first, RegistrationEvent::Broadcast(Ok(())));
    let mut third = registration(method(), "");
    step(&mut w, &mut third, RegistrationEvent::Start);
    assert_eq!(
        step(&mut w, &mut third, RegistrationEvent::Metadata(Ok(1))),
        failure(RegistrationErrorKind::Funding(FundingError::UtxoNotOwned), "")
    );
}

#[test]
fn failed_broadcast_rolls_back_and_leaves_the_funds_spendable() {
    let mut w = world(&[(1, 50_000)]);
    let mut r = registration(RegisterIdentityFundingMethod::FundWithWallet(10_000, 7), "");
    step(&mut w, &mut r, RegistrationEvent::Start);
    step(&mut w, &mut r, RegistrationEvent::Metadata(Ok(1)));
    step(&mut w, &mut r, RegistrationEvent::Signed(Ok([FUNDING_TX; 32])));
    assert_eq!(w.tracker.status(&[FUNDING_TX; 32]), FinalityStatus::Pending);
    let action = step(&mut w, &mut r, RegistrationEvent::Broadcast(Err("node is down".to_string())));
    assert_eq!(action, failure(RegistrationErrorKind::Broadcast, "node is down"));
    assert_eq!(w.tracker.status(&[FUNDING_TX; 32]), FinalityStatus::Unknown);
    assert!(w.wallet.contains_utxo(&outpoint(1)));
    assert!(!w.wallet.is_reserved(&outpoint(1)));
    assert!(w.db.has_utxo(&outpoint(1), &NETWORK));
    assert_eq!(w.wallet.balance_of(&address()), 50_000);
    assert_eq!(r.error.as_ref().unwrap().message(), "node is down");
    let mut again = registration(RegisterIdentityFundingMethod::FundWithWallet(10_000, 7), "");
    step(&mut w, &mut again, RegistrationEvent::Start);
    assert!(matches!(
        step(&mut w, &mut again, RegistrationEvent::Metadata(Ok(1))),
        RegistrationAction::Sign(_)
    ));
}

#[test]
fn failed_signature_releases_the_inputs() {
    let mut w = world(&[(1, 50_000)]);
    let mut r = registration(RegisterIdentityFundingMethod::FundWithWallet(10_000, 7), "");
    step(&mut w, &mut r, RegistrationEvent::Start);
    step(&mut w, &mut r, RegistrationEvent::Metadata(Ok(1)));
    assert!(w.wallet.is_reserved(&outpoint(1)));
    let action = step(&mut w, &mut r, RegistrationEvent::Signed(Err("no key".to_string())));
    assert_eq!(action, failure(RegistrationErrorKind::Signing, "no key"));
    assert!(!w.wallet.is_reserved(&outpoint(1)));
    assert_eq!(w.tracker.len(), 0);
}

#[test]
fn insufficient_funds_reloads_the_utxos_once_and_retries_once() {
    let mut w = world(&[(1, 5_000)]);
    let mut r = registration(RegisterIdentityFundingMethod::FundWithWallet(10_000, 7), "");
    step(&mut w, &mut r, RegistrationEvent::Start);
    assert_eq!(
        step(&mut w, &mut r, RegistrationEvent::Metadata(Ok(1))),
        RegistrationAction::ReloadUtxos
    );
    assert!(r.reloaded);
    let fresh = vec![
        Utxo { outpoint: outpoint(1), address: address(), output: output(5_000) },
        Utxo { outpoint: outpoint(2), address: address(), output: output(9_000) },
    ];
    let action = step(&mut w, &mut r, RegistrationEvent::UtxosReloaded(Ok(fresh)));
    match action {
        RegistrationAction::Sign(funding) => {
            assert_eq!(funding.outpoints(), vec![outpoint(1), outpoint(2)]);
            assert_eq!(funding.change, 14_000 - 10_000 - ASSET_LOCK_FEE);
        }
        other => panic!("expected a transaction to sign, got {:?}", other),
    }
    assert!(w.db.has_utxo(&outpoint(2), &NETWORK));
}

#[test]
fn insufficient_funds_after_the_reload_fails() {
    let mut w = world(&[(1, 5_000)]);
    let mut r = registration(RegisterIdentityFundingMethod::FundWithWallet(10_000, 7), "");
    step(&mut w, &mut r, RegistrationEvent::Start);
    step(&mut w, &mut r, RegistrationEvent::Metadata(Ok(1)));
    let fresh = vec![Utxo { outpoint: outpoint(1), address: address(), output: output(5_000) }];
    assert_eq!(
        step(&mut w, &mut r, RegistrationEvent::UtxosReloaded(Ok(fresh))),
        failure(RegistrationErrorKind::Funding(FundingError::InsufficientFunds), "")
    );
    assert_eq!(r.phase, RegistrationPhase::Failed);
}

#[test]
fn failed_reload_fails_the_registration() {
    let mut w = world(&[]);
    let mut r = registration(RegisterIdentityFundingMethod::FundWithWallet(10_000, 7), "");
    step(&mut w, &mut r, RegistrationEvent::Start);
    step(&mut w, &mut r, RegistrationEvent::Metadata(Ok(1)));
    assert_eq!(
        step(&mut w, &mut r, RegistrationEvent::UtxosReloaded(Err("rpc".to_string()))),
        failure(RegistrationErrorKind::UtxoReload, "rpc")
    );
}

#[test]
fn failed_metadata_fails_the_registration() {
    let mut w = world(&[(1, 50_000)]);
    let mut r = registration(RegisterIdentityFundingMethod::FundWithWallet(10_000, 7), "");
    step(&mut w, &mut r, RegistrationEvent::Start);
    assert_eq!(
        step(&mut w, &mut r, RegistrationEvent::Metadata(Err("offline".to_string()))),
        failure(RegistrationErrorKind::Metadata, "offline")
    );
    assert!(!w.wallet.is_reserved(&outpoint(1)));
}

#[test]
fn stale_instant_lock_is_upgraded_to_the_chain_proof_before_use() {
    let mut w = world(&[]);
    let mut r = registration(
        RegisterIdentityFundingMethod::UseAssetLock(address(), instant(9), [9u8; 32]),
        "",
    );
    step(&mut w, &mut r, RegistrationEvent::Start);
    assert_eq!(
        step(&mut w, &mut r, RegistrationEvent::Metadata(Ok(4_321))),
        RegistrationAction::QueryTransaction([9u8; 32])
    );
    let report = RawTransactionInfo { chainlock: true, height: Some(4_000), confirmations: Some(9) };
    assert_eq!(
        step(&mut w, &mut r, RegistrationEvent::TransactionInfo(Ok(report))),
        RegistrationAction::CheckIdentity(chain(9, 4_321))
    );
    assert_eq!(
        step(&mut w, &mut r, RegistrationEvent::IdentityChecked(Ok((IDENTITY, false)))),
        RegistrationAction::Submit(Identity { id: IDENTITY, balance: 0, revision: 0 }, chain(9, 4_321))
    );
}

#[test]
fn stale_instant_lock_is_upgraded_when_the_node_reports_no_height() {
    let mut w = world(&[]);
    let mut r = registration(
        RegisterIdentityFundingMethod::UseAssetLock(address(), instant(9), [9u8; 32]),
        "",
    );
    step(&mut w, &mut r, RegistrationEvent::Start);
    step(&mut w, &mut r, RegistrationEvent::Metadata(Ok(4_321)));
    let report = RawTransactionInfo { chainlock: true, height: None, confirmations: Some(9) };
    assert_eq!(
        step(&mut w, &mut r, RegistrationEvent::TransactionInfo(Ok(report))),
        RegistrationAction::CheckIdentity(chain(9, 4_321))
    );
}

#[test]
fn fresh_instant_lock_is_kept() {
    let mut w = world(&[]);
    let mut r = registration(
        RegisterIdentityFundingMethod::UseAssetLock(address(), instant(9), [9u8; 32]),
        "",
    );
    step(&mut w, &mut r, RegistrationEvent::Start);
    step(&mut w, &mut r, RegistrationEvent::Metadata(Ok(4_321)));
    let report = RawTransactionInfo { chainlock: true, height: Some(4_000), confirmations: Some(8) };
    assert_eq!(
        step(&mut w, &mut r, RegistrationEvent::TransactionInfo(Ok(report))),
        RegistrationAction::CheckIdentity(instant(9))
    );
}

#[test]
fn chain_proof_held_by_the_caller_is_used_without_asking_the_node() {
    let mut w = world(&[]);
    let mut r = registration(
        RegisterIdentityFundingMethod::UseAssetLock(address(), chain(9, 10), [9u8; 32]),
        "",
    );
    step(&mut w, &mut r, RegistrationEvent::Start);
    assert_eq!(
        step(&mut w, &mut r, RegistrationEvent::Metadata(Ok(4_321))),
        RegistrationAction::CheckIdentity(chain(9, 10))
    );
}

#[test]
fn asset_lock_for_an_address_of_another_wallet_is_refused() {
    let mut w = world(&[]);
    let mut foreign = address();
    foreign.hash[0] = 0xee;
    let mut r = registration(
        RegisterIdentityFundingMethod::UseAssetLock(foreign, instant(9), [9u8; 32]),
        "",
    );
    step(&mut w, &mut r, RegistrationEvent::Start);
    assert_eq!(
        step(&mut w, &mut r, RegistrationEvent::Metadata(Ok(1))),
        failure(RegistrationErrorKind::AssetLockNotValidForWallet, "")
    );
    assert_eq!(r.error.as_ref().unwrap().message(), "Asset Lock not valid for wallet");
}

#[test]
fn failed_transaction_query_fails_the_registration() {
    let mut w = world(&[]);
    let mut r = registration(
        RegisterIdentityFundingMethod::UseAssetLock(address(), instant(9), [9u8; 32]),
        "",
    );
    step(&mut w, &mut r, RegistrationEvent::Start);
    step(&mut w, &mut r, RegistrationEvent::Metadata(Ok(1)));
    assert_eq!(
        step(&mut w, &mut r, RegistrationEvent::TransactionInfo(Err("unknown tx".to_string()))),
        failure(RegistrationErrorKind::TransactionInfo, "unknown tx")
    );
}

#[test]
fn existing_identity_fails_with_already_exists() {
    let mut w = world(&[]);
    let mut r = registration(
        RegisterIdentityFundingMethod::UseAssetLock(address(), chain(9, 10), [9u8; 32]),
        "",
    );
    step(&mut w, &mut r, RegistrationEvent::Start);
    step(&mut w, &mut r, RegistrationEvent::Metadata(Ok(1)));
    let action = step(&mut w, &mut r, RegistrationEvent::IdentityChecked(Ok((IDENTITY, true))));
    assert_eq!(action, failure(RegistrationErrorKind::IdentityAlreadyExists, ""));
    assert_eq!(r.error.as_ref().unwrap().message(), "Identity already exists");
    assert_eq!(w.db.identity_status(&IDENTITY, &NETWORK), None);
}

#[test]
fn failed_identity_lookup_is_reported_with_the_words_of_the_platform() {
    let mut w = world(&[]);
    let mut r = registration(
        RegisterIdentityFundingMethod::UseAssetLock(address(), chain(9, 10), [9u8; 32]),
        "",
    );
    step(&mut w, &mut r, RegistrationEvent::Start);
    step(&mut w, &mut r, RegistrationEvent::Metadata(Ok(1)));
    let action = step(&mut w, &mut r, RegistrationEvent::IdentityChecked(Err("timeout".to_string())));
    assert_eq!(action, failure(RegistrationErrorKind::FetchIdentity, "timeout"));
    assert_eq!(r.error.as_ref().unwrap().message(), "Error fetching identity: timeout");
}

fn refusal(protocol_version_mismatch: bool, message: &str) -> SubmissionFailure {
    SubmissionFailure {
        protocol_version_mismatch,
        message: message.to_string(),
        transition: "IdentityCreate { .. }".to_string(),
    }
}

#[test]
fn submission_failure_is_recorded_as_failed_creation() {
    let mut w = world(&[(1, 500_000)]);
    let mut r = registration(RegisterIdentityFundingMethod::FundWithWallet(100_000, 7), "bob");
    fund_and_submit(&mut w, &mut r);
    let action = step(&mut w, &mut r, RegistrationEvent::Submitted(Err(refusal(false, "rejected"))));
    assert_eq!(
        action,
        failure(
            RegistrationErrorKind::Submission,
            "error: rejected, transaction is IdentityCreate { .. }"
        )
    );
    assert_eq!(r.phase, RegistrationPhase::Failed);
    assert_eq!(r.identity.as_ref().unwrap().status, IdentityStatus::FailedCreation);
    assert_eq!(w.db.identity_status(&IDENTITY, &NETWORK), Some(IdentityStatus::FailedCreation));
    for event in [
        RegistrationEvent::Start,
        RegistrationEvent::Woke,
        RegistrationEvent::Submitted(Ok(Identity { id: IDENTITY, balance: 1, revision: 1 })),
        RegistrationEvent::IdentityChecked(Ok((IDENTITY, false))),
    ] {
        assert_eq!(step(&mut w, &mut r, event), RegistrationAction::Nothing);
        assert_eq!(
            w.db.identity_status(&IDENTITY, &NETWORK),
            Some(IdentityStatus::FailedCreation)
        );
    }
    assert_eq!(w.wallet.identity(7), None);
    assert!(!w.db.has_utxo(&outpoint(1), &NETWORK));
}

#[test]
fn protocol_version_mismatch_is_retried_exactly_once() {
    let mut w = world(&[(1, 500_000)]);
    let mut r = registration(RegisterIdentityFundingMethod::FundWithWallet(100_000, 7), "bob");
    fund_and_submit(&mut w, &mut r);
    let action = step(&mut w, &mut r, RegistrationEvent::Submitted(Err(refusal(true, "version"))));
    assert_eq!(
        action,
        RegistrationAction::Submit(Identity { id: IDENTITY, balance: 0, revision: 0 }, instant(FUNDING_TX))
    );
    assert_eq!(r.submissions, 2);
    assert_eq!(MAX_SUBMISSIONS, 2);
    assert_eq!(w.db.identity_status(&IDENTITY, &NETWORK), Some(IdentityStatus::PendingCreation));
    let action = step(&mut w, &mut r, RegistrationEvent::Submitted(Err(refusal(true, "version"))));
    assert_eq!(
        action,
        failure(
            RegistrationErrorKind::Submission,
            "error: version, transaction is IdentityCreate { .. }"
        )
    );
    assert_eq!(w.db.identity_status(&IDENTITY, &NETWORK), Some(IdentityStatus::FailedCreation));
}

#[test]
fn retry_after_protocol_version_mismatch_can_succeed() {
    let mut w = world(&[(1, 500_000)]);
    let mut r = registration(RegisterIdentityFundingMethod::FundWithWallet(100_000, 7), "");
    fund_and_submit(&mut w, &mut r);
    step(&mut w, &mut r, RegistrationEvent::Submitted(Err(refusal(true, "version"))));
    let registered = Identity { id: IDENTITY, balance: 5, revision: 0 };
    let action = step(&mut w, &mut r, RegistrationEvent::Submitted(Ok(registered)));
    assert_eq!(
        action,
        RegistrationAction::ReportSuccess(QualifiedIdentity {
            identity: registered,
            alias: None,
            private_keys: keys(),
            associated_wallet: Some(seed_hash()),
            wallet_index: Some(7),
            status: IdentityStatus::Unknown,
        })
    );
}

#[test]
fn success_drops_the_consumed_asset_lock_and_marks_its_row() {
    let mut w = world(&[]);
    for tag in [9u8, 8] {
        w.wallet.add_unused_asset_lock(UnusedAssetLock {
            txid: [tag; 32],
            transaction: vec![tag],
            address: address(),
            amount: 1,
            instant_lock: None,
            lock_proof: Some(chain(tag, 10)),
        });
        w.db.store_asset_lock_transaction(AssetLockRow {
            txid: [tag; 32],
            transaction: vec![tag],
            address: address(),
            amount: 1,
            instant_lock: None,
            chain_locked_height: Some(10),
            identity_id: None,
            identity_id_potentially_in_creation: None,
            wallet: seed_hash(),
            network: NETWORK,
        });
    }
    let mut r = registration(
        RegisterIdentityFundingMethod::UseAssetLock(address(), chain(9, 10), [9u8; 32]),
        "",
    );
    step(&mut w, &mut r, RegistrationEvent::Start);
    step(&mut w, &mut r, RegistrationEvent::Metadata(Ok(1)));
    step(&mut w, &mut r, RegistrationEvent::IdentityChecked(Ok((IDENTITY, false))));
    assert_eq!(w.db.get_wallets(&NETWORK).unwrap()[0].unused_asset_lock_count(), 2);
    step(
        &mut w,
        &mut r,
        RegistrationEvent::Submitted(Ok(Identity { id: IDENTITY, balance: 5, revision: 0 })),
    );
    assert_eq!(w.wallet.unused_asset_lock_count(), 1);
    assert_eq!(w.wallet.unused_asset_lock_at(0).txid, [8u8; 32]);
    let reloaded = w.db.get_wallets(&NETWORK).unwrap();
    assert_eq!(reloaded[0].unused_asset_lock_count(), 1);
    assert_eq!(reloaded[0].unused_asset_lock_at(0).txid, [8u8; 32]);
    assert_eq!(reloaded[0].identity(7), Some(Identity { id: IDENTITY, balance: 5, revision: 0 }));
}

#[test]
fn proof_timeout_ends_the_wait() {
    let mut w = world(&[(1, 500_000)]);
    let mut r = Registration::new(
        IdentityRegistrationInfo {
            alias_input: String::new(),
            keys: KeyStorage::new(),
            wallet_identity_index: 7,
            identity_funding_method: RegisterIdentityFundingMethod::FundWithWallet(100_000, 7),
        },
        NETWORK,
        ASSET_LOCK_FEE,
        Some(400),
    );
    step(&mut w, &mut r, RegistrationEvent::Start);
    step(&mut w, &mut r, RegistrationEvent::Metadata(Ok(1)));
    step(&mut w, &mut r, RegistrationEvent::Signed(Ok([FUNDING_TX; 32])));
    assert_eq!(
        step(&mut w, &mut r, RegistrationEvent::Broadcast(Ok(()))),
        RegistrationAction::Sleep(200)
    );
    assert_eq!(step(&mut w, &mut r, RegistrationEvent::Woke), RegistrationAction::Sleep(200));
    assert_eq!(
        step(&mut w, &mut r, RegistrationEvent::Woke),
        failure(RegistrationErrorKind::ProofTimeout, "")
    );
    assert_eq!(
        r.error.as_ref().unwrap().message(),
        "Asset lock proof did not arrive in time"
    );
}

#[test]
fn proof_already_resolved_when_the_broadcast_returns_is_used_at_once() {
    let mut w = world(&[(1, 500_000)]);
    let mut r = registration(RegisterIdentityFundingMethod::FundWithWallet(100_000, 7), "");
    step(&mut w, &mut r, RegistrationEvent::Start);
    step(&mut w, &mut r, RegistrationEvent::Metadata(Ok(1)));
    step(&mut w, &mut r, RegistrationEvent::Signed(Ok([FUNDING_TX; 32])));
    w.tracker.resolve([FUNDING_TX; 32], chain(FUNDING_TX, 3));
    assert_eq!(
        step(&mut w, &mut r, RegistrationEvent::Broadcast(Ok(()))),
        RegistrationAction::CheckIdentity(chain(FUNDING_TX, 3))
    );
}

#[test]
fn answers_that_the_phase_does_not_wait_for_change_nothing() {
    let mut w = world(&[(1, 500_000)]);
    let mut r = registration(RegisterIdentityFundingMethod::FundWithWallet(100_000, 7), "");
    assert_eq!(step(&mut w, &mut r, RegistrationEvent::Woke), RegistrationAction::Nothing);
    assert_eq!(
        step(&mut w, &mut r, RegistrationEvent::Metadata(Ok(5))),
        RegistrationAction::Nothing
    );
    assert_eq!(r.phase, RegistrationPhase::Created);
    assert_eq!(r.core_chain_locked_height, 0);
    r.phase = RegistrationPhase::AwaitingBroadcast;
    assert!(!r.is_well_formed());
    assert_eq!(
        step(&mut w, &mut r, RegistrationEvent::Broadcast(Ok(()))),
        RegistrationAction::Nothing
    );
    assert_eq!(w.wallet.utxo_count(), 1);
}

#[test]
fn context_steps_the_registration_of_the_wallet_at_a_position() {
    let w = world(&[(1, 500_000)]);
    let mut context = AppContext::new(NETWORK);
    assert!(!context.is_developer_mode());
    context.wallets.push(w.wallet);
    assert_eq!(context.wallet_position(&seed_hash()), Some(0));
    assert_eq!(context.wallet_position(&[0u8; 32]), None);
    let mut r = registration(RegisterIdentityFundingMethod::FundWithWallet(100_000, 7), "");
    assert_eq!(
        context.register_identity(0, &mut r, RegistrationEvent::Start),
        RegistrationAction::FetchMetadata
    );
    assert!(matches!(
        context.register_identity(0, &mut r, RegistrationEvent::Metadata(Ok(1))),
        RegistrationAction::Sign(_)
    ));
    assert!(context.wallets[0].is_reserved(&outpoint(1)));
    assert_eq!(
        context.register_identity(0, &mut r, RegistrationEvent::Signed(Ok([FUNDING_TX; 32]))),
        RegistrationAction::Broadcast([FUNDING_TX; 32])
    );
    assert_eq!(
        context.transactions_waiting_for_finality.status(&[FUNDING_TX; 32]),
        FinalityStatus::Pending
    );
    assert_eq!(
        context.register_identity(3, &mut r, RegistrationEvent::Broadcast(Ok(()))),
        RegistrationAction::Nothing
    );
    assert_eq!(r.phase, RegistrationPhase::AwaitingBroadcast);
}

#[test]
fn identity_status_changes_only_while_pending() {
    let mut status = IdentityStatus::PendingCreation;
    assert!(!status.is_final());
    assert!(!status.update(IdentityStatus::PendingCreation));
    assert!(status.update(IdentityStatus::FailedCreation));
    assert_eq!(status, IdentityStatus::FailedCreation);
    assert!(status.is_final());
    assert!(!status.update(IdentityStatus::PendingCreation));
    assert!(!status.update(IdentityStatus::Unknown));
    assert_eq!(status, IdentityStatus::FailedCreation);
    let mut other = IdentityStatus::PendingCreation;
    assert!(other.update(IdentityStatus::Unknown));
    assert!(!other.update(IdentityStatus::FailedCreation));
    assert_eq!(other, IdentityStatus::Unknown);
}

#[test]
fn pending_identity_has_an_alias_only_for_a_non_empty_input() {
    let identity = Identity::new_with_id(IDENTITY);
    assert_eq!(identity, Identity { id: IDENTITY, balance: 0, revision: 0 });
    let named = QualifiedIdentity::pending(identity, &"carol".to_string(), &keys(), seed_hash(), 3);
    assert_eq!(named.alias, Some("carol".to_string()));
    assert_eq!(named.status, IdentityStatus::PendingCreation);
    assert_eq!(named.wallet_index, Some(3));
    assert_eq!(named.private_keys, keys());
    let unnamed = QualifiedIdentity::pending(identity, &String::new(), &KeyStorage::new(), seed_hash(), 3);
    assert_eq!(unnamed.alias, None);
    assert_eq!(unnamed.private_keys, KeyStorage::new());
}

/// Tables that hold the wallet of `world`, its address and the outputs.
fn tables(utxos: &[(u8, u64)]) -> Database {
    let mut db = world(utxos).db;
    db.add_address_if_not_exists(
        &seed_hash(),
        &address(),
        &NETWORK,
        &DerivationPath { components: vec![0] },
        DerivationPathReference::BIP44.code(),
        1,
        None,
    )
    .unwrap();
    db
}

#[test]
fn restored_context_holds_what_the_tables_hold() {
    let mut context = AppContext::new(NETWORK);
    context.restore(tables(&[(1, 500_000), (2, 7)]));
    assert_eq!(context.wallets.len(), 1);
    assert_eq!(context.wallet_position(&seed_hash()), Some(0));
    assert!(context.wallets[0].contains_utxo(&outpoint(1)));
    assert!(context.wallets[0].contains_utxo(&outpoint(2)));
    assert_eq!(context.wallets[0].balance_of(&address()), 500_007);

    let mut r = registration(RegisterIdentityFundingMethod::FundWithWallet(100_000, 7), "");
    context.register_identity(0, &mut r, RegistrationEvent::Start);
    context.register_identity(0, &mut r, RegistrationEvent::Metadata(Ok(1)));
    context.register_identity(0, &mut r, RegistrationEvent::Signed(Ok([FUNDING_TX; 32])));
    assert_eq!(
        context.register_identity(0, &mut r, RegistrationEvent::Broadcast(Ok(()))),
        RegistrationAction::Sleep(200)
    );
    assert!(!context.wallets[0].contains_utxo(&outpoint(1)));
    assert!(!context.db.has_utxo(&outpoint(1), &NETWORK));
    assert!(context.wallets[0].contains_utxo(&outpoint(2)));

    context.restore(tables(&[(1, 500_000), (2, 7)]));
    assert!(context.wallets[0].contains_utxo(&outpoint(1)));
    assert!(context.db.has_utxo(&outpoint(1), &NETWORK));
    assert!(!context.wallets[0].is_reserved(&outpoint(1)));
    assert_eq!(context.wallets[0].utxo_count(), 2);
    assert_eq!(
        context.transactions_waiting_for_finality.status(&[FUNDING_TX; 32]),
        FinalityStatus::Pending
    );

    context.restore(tables(&[(2, 7)]));
    assert!(!context.wallets[0].contains_utxo(&outpoint(1)));
    assert!(!context.db.has_utxo(&outpoint(1), &NETWORK));
    assert_eq!(context.wallets[0].utxo_count(), 1);
    context.restore(Database::new());
    assert_eq!(context.wallets.len(), 0);
}

#[test]
fn outputs_of_rows_are_read_into_the_wallet_that_knows_their_address() {
    let mut db = tables(&[(1, 10), (2, 20)]);
    let stranger = Address { network: NETWORK, kind: AddressKind::PubkeyHash, hash: [9u8; 20] };
    db.insert_utxo(&Utxo { outpoint: outpoint(3), address: stranger, output: output(30) }, &NETWORK);
    db.insert_utxo(
        &Utxo { outpoint: outpoint(4), address: address(), output: output(40) },
        &Network::Dash,
    );
    db.insert_utxo(
        &Utxo { outpoint: outpoint(5), address: address(), output: output(u64::MAX) },
        &NETWORK,
    );
    let wallets = db.get_wallets(&NETWORK).unwrap();
    assert_eq!(wallets.len(), 1);
    assert!(wallets[0].contains_utxo(&outpoint(1)));
    assert!(wallets[0].contains_utxo(&outpoint(2)));
    assert!(!wallets[0].contains_utxo(&outpoint(3)));
    assert!(!wallets[0].contains_utxo(&outpoint(4)));
    assert!(!wallets[0].contains_utxo(&outpoint(5)));
    assert_eq!(wallets[0].balance_of(&address()), 30);
    assert_eq!(wallets[0].utxo_count(), 2);
}

#[test]
fn record_of_the_identity_holds_the_keys_it_is_registered_with() {
    let mut w = world(&[(1, 500_000)]);
    let mut r = registration(RegisterIdentityFundingMethod::FundWithWallet(100_000, 7), "");
    fund_and_submit(&mut w, &mut r);
    let pending = r.identity.as_ref().unwrap();
    assert_eq!(pending.status, IdentityStatus::PendingCreation);
    assert_eq!(pending.private_keys, keys());
    let registered = Identity { id: IDENTITY, balance: 5, revision: 1 };
    step(&mut w, &mut r, RegistrationEvent::Submitted(Ok(registered)));
    assert_eq!(r.identity.as_ref().unwrap().private_keys, keys());

    let mut w = world(&[(1, 500_000)]);
    let mut r = registration(RegisterIdentityFundingMethod::FundWithWallet(100_000, 7), "");
    fund_and_submit(&mut w, &mut r);
    step(&mut w, &mut r, RegistrationEvent::Submitted(Err(refusal(false, "no"))));
    let failed = r.identity.as_ref().unwrap();
    assert_eq!(failed.status, IdentityStatus::FailedCreation);
    assert_eq!(failed.private_keys, keys());
}
