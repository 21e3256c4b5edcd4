use dash_evo_tool::chain::{Address, AddressKind, Network, OutPoint, TxOut};
use dash_evo_tool::funding::{AssetLockFunding, FundingError, FundingInput};
use dash_evo_tool::derivation::{DerivationPath, DerivationPathReference, DerivationPathType};
use dash_evo_tool::wallet::{KnownAddress, Wallet, WalletInfo};
use dash_evo_tool::wallet_seed::{ClosedKeyItem, WalletSeed};

fn wallet() -> Wallet {
    let stored = ClosedKeyItem {
        seed_hash: [3u8; 32],
        encrypted_seed: vec![0u8; 64],
        salt: vec![],
        nonce: vec![],
        password_hint: None,
    };
    let wallet_seed = WalletSeed::from_stored(stored, false).expect("an open seed");
    let mut wallet = Wallet::new(WalletInfo {
        wallet_seed,
        uses_password: false,
        master_bip44_ecdsa_extended_public_key: vec![],
        alias: None,
        is_main: false,
    });
    wallet.register_address(KnownAddress {
        address: address(),
        derivation_path: DerivationPath { components: vec![0] },
        path_reference: DerivationPathReference::BIP44,
        path_type: DerivationPathType { bits: 1 },
    });
    wallet
}

fn address() -> Address {
    Address { network: Network::Testnet, kind: AddressKind::PubkeyHash, hash: [5u8; 20] }
}

fn outpoint(tag: u8) -> OutPoint {
    OutPoint { txid: [tag; 32], vout: 0 }
}

fn output(value: u64) -> TxOut {
    TxOut { value, script_pubkey: vec![0xac] }
}

fn input(tag: u8, value: u64) -> FundingInput {
    FundingInput { outpoint: outpoint(tag), address: address(), value }
}

#[test]
fn funding_selects_outputs_in_order_until_amount_and_fee_are_covered() {
    let mut w = wallet();
    w.add_utxo(address(), outpoint(1), output(1_000)).unwrap();
    w.add_utxo(address(), outpoint(2), output(5_000)).unwrap();
    w.add_utxo(address(), outpoint(3), output(9_000)).unwrap();
    let funding = w.registration_asset_lock_transaction(2_500, 500, 4).expect("covered");
    assert_eq!(
        funding,
        AssetLockFunding {
            inputs: vec![input(1, 1_000), input(2, 5_000)],
            credit_amount: 2_500,
            change: 3_000,
            fee: 500,
            identity_index: 4,
        }
    );
    assert_eq!(funding.outpoints(), vec![outpoint(1), outpoint(2)]);
    assert!(w.is_reserved(&outpoint(1)));
    assert!(w.is_reserved(&outpoint(2)));
    assert!(!w.is_reserved(&outpoint(3)));
    assert_eq!(w.utxo_count(), 3);
}

#[test]
fn funding_with_exact_cover_leaves_no_change() {
    let mut w = wallet();
    w.add_utxo(address(), outpoint(1), output(3_000)).unwrap();
    let funding = w.registration_asset_lock_transaction(2_000, 1_000, 0).expect("covered");
    assert_eq!(funding.inputs, vec![input(1, 3_000)]);
    assert_eq!(funding.change, 0);
    assert_eq!(funding.credit_amount, 2_000);
}

#[test]
fn funding_fails_when_the_balance_does_not_cover_amount_and_fee() {
    let mut w = wallet();
    w.add_utxo(address(), outpoint(1), output(1_000)).unwrap();
    w.add_utxo(address(), outpoint(2), output(1_999)).unwrap();
    assert_eq!(
        w.registration_asset_lock_transaction(2_000, 1_000, 0),
        Err(FundingError::InsufficientFunds)
    );
    assert!(!w.is_reserved(&outpoint(1)));
    assert!(!w.is_reserved(&outpoint(2)));
}

#[test]
fn funding_fails_when_amount_and_fee_overflow() {
    let mut w = wallet();
    w.add_utxo(address(), outpoint(1), output(1_000)).unwrap();
    assert_eq!(
        w.registration_asset_lock_transaction(u64::MAX, 1, 0),
        Err(FundingError::AmountOverflow)
    );
}

#[test]
fn funding_skips_reserved_outputs() {
    let mut w = wallet();
    w.add_utxo(address(), outpoint(1), output(4_000)).unwrap();
    w.add_utxo(address(), outpoint(2), output(4_000)).unwrap();
    let first = w.registration_asset_lock_transaction(3_000, 1_000, 0).expect("covered");
    assert_eq!(first.inputs, vec![input(1, 4_000)]);
    let second = w.registration_asset_lock_transaction(3_000, 1_000, 1).expect("covered");
    assert_eq!(second.inputs, vec![input(2, 4_000)]);
    assert_eq!(
        w.registration_asset_lock_transaction(1, 0, 2),
        Err(FundingError::InsufficientFunds)
    );
}

#[test]
fn funding_for_utxo_credits_the_value_less_the_fee() {
    let mut w = wallet();
    w.add_utxo(address(), outpoint(1), output(10_000)).unwrap();
    let funding = w
        .registration_asset_lock_transaction_for_utxo(outpoint(1), &output(10_000), address(), 3_000, 2)
        .expect("owned");
    assert_eq!(
        funding,
        AssetLockFunding {
            inputs: vec![input(1, 10_000)],
            credit_amount: 7_000,
            change: 0,
            fee: 3_000,
            identity_index: 2,
        }
    );
    assert!(w.is_reserved(&outpoint(1)));
}

#[test]
fn funding_for_utxo_not_owned_is_refused() {
    let mut w = wallet();
    w.add_utxo(address(), outpoint(1), output(10_000)).unwrap();
    assert_eq!(
        w.registration_asset_lock_transaction_for_utxo(outpoint(2), &output(10_000), address(), 3_000, 0),
        Err(FundingError::UtxoNotOwned)
    );
    assert!(!w.is_reserved(&outpoint(1)));
}

#[test]
fn funding_for_utxo_that_differs_from_the_held_output_is_refused() {
    let mut w = wallet();
    w.add_utxo(address(), outpoint(1), output(10_000)).unwrap();
    assert_eq!(
        w.registration_asset_lock_transaction_for_utxo(outpoint(1), &output(10_001), address(), 3_000, 0),
        Err(FundingError::UtxoMismatch)
    );
    let other_script = TxOut { value: 10_000, script_pubkey: vec![0xad] };
    assert_eq!(
        w.registration_asset_lock_transaction_for_utxo(outpoint(1), &other_script, address(), 3_000, 0),
        Err(FundingError::UtxoMismatch)
    );
    let mut other_address = address();
    other_address.hash[0] = 0;
    assert_eq!(
        w.registration_asset_lock_transaction_for_utxo(outpoint(1), &output(10_000), other_address, 3_000, 0),
        Err(FundingError::UtxoMismatch)
    );
}

#[test]
fn funding_for_utxo_twice_is_refused_the_second_time() {
    let mut w = wallet();
    w.add_utxo(address(), outpoint(1), output(10_000)).unwrap();
    assert!(w
        .registration_asset_lock_transaction_for_utxo(outpoint(1), &output(10_000), address(), 3_000, 0)
        .is_ok());
    assert_eq!(
        w.registration_asset_lock_transaction_for_utxo(outpoint(1), &output(10_000), address(), 3_000, 1),
        Err(FundingError::UtxoReserved)
    );
    w.remove_utxos(&vec![outpoint(1)]);
    assert_eq!(
        w.registration_asset_lock_transaction_for_utxo(outpoint(1), &output(10_000), address(), 3_000, 1),
        Err(FundingError::UtxoNotOwned)
    );
}

#[test]
fn funding_for_utxo_that_does_not_cover_the_fee_is_refused() {
    let mut w = wallet();
    w.add_utxo(address(), outpoint(1), output(3_000)).unwrap();
    assert_eq!(
        w.registration_asset_lock_transaction_for_utxo(outpoint(1), &output(3_000), address(), 3_000, 0),
        Err(FundingError::InsufficientFunds)
    );
    assert!(!w.is_reserved(&outpoint(1)));
    let funding = w
        .registration_asset_lock_transaction_for_utxo(outpoint(1), &output(3_000), address(), 2_999, 0)
        .expect("one duff is left");
    assert_eq!(funding.credit_amount, 1);
}

#[test]
fn funding_of_nothing_spends_the_first_free_output() {
    let mut w = wallet();
    assert_eq!(
        w.registration_asset_lock_transaction(0, 0, 1),
        Err(FundingError::InsufficientFunds)
    );
    w.add_utxo(address(), outpoint(1), output(1_000)).unwrap();
    w.add_utxo(address(), outpoint(2), output(5_000)).unwrap();
    w.reserve(&vec![outpoint(1)]).unwrap();
    let funding = w.registration_asset_lock_transaction(0, 0, 1).expect("an output is free");
    assert_eq!(
        funding,
        AssetLockFunding {
            inputs: vec![input(2, 5_000)],
            credit_amount: 0,
            change: 5_000,
            fee: 0,
            identity_index: 1,
        }
    );
    assert!(w.is_reserved(&outpoint(2)));
    assert_eq!(
        w.registration_asset_lock_transaction(0, 0, 2),
        Err(FundingError::InsufficientFunds)
    );
    assert_eq!(w.balance_of(&address()), 6_000);
}
