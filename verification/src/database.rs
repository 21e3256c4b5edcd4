//! The durable record of wallets, addresses, unspent outputs, funding
//! transactions and identities, as tables of rows, with the rules by which
//! rows are written and read back.

use crate::asset_lock_proof::{
    AssetLockProof, AssetLockProofView, ChainAssetLockProof, InstantAssetLockProof,
    InstantAssetLockProofView, FUNDING_OUTPUT_INDEX,
};
use crate::chain::{
    bytes_before, bytes_eq, hash_before, lemma_bytes_before_total,
    lemma_bytes_before_transitive, network_accepts, Address, Identifier, Network,
    OutPoint, TxOutView, Txid, WalletSeedHash,
};
use crate::identity::{IdentityStatus, QualifiedIdentity, QualifiedIdentityView};
use crate::derivation::{
    DerivationPath, DerivationPathReference, DerivationPathType, DERIVATION_PATH_TYPE_FLAGS,
};
use crate::wallet::{
    spec_add_utxo, spec_add_utxo_outcome, spec_register_address, KnownAddress,
    KnownAddressView, UnusedAssetLock, UnusedAssetLockView, Utxo, UtxoView, Wallet, WalletInfo,
    WalletInfoView, WalletView,
};
use crate::views::{
    bytes_option_view, clone_bytes_option, clone_text_option, text_option_view, views,
};
use vstd::prelude::*;

verus! {

/// Why an address was refused.
#[derive(Clone, Copy, Debug, PartialEq, Eq)]
pub enum AddressError {
    /// The address was encoded for `found` and cannot be used on `required`.
    NetworkValidation { required: Network, found: Network, address: Address },
}

/// Error type for wallet operations.
#[derive(Clone, Copy, Debug, PartialEq, Eq)]
pub enum WalletError {
    AddressError(AddressError),
}

/// Why a table refused a statement.
#[derive(Clone, Copy, Debug, PartialEq, Eq)]
pub enum DatabaseError {
    /// A row with the same key stands in the table already.
    ConstraintViolation,
    /// The statement was to change a row, and no row matched.
    QueryReturnedNoRows,
    /// A stored number would no longer fit in 64 bits.
    IntegerOverflow,
    /// A wallet operation refused the row.
    Wallet(WalletError),
}

/// The address as the wallet uses it on `network`, or why it cannot: an
/// address of the network itself is used as it is; an address encoded for
/// the test network is used on a devnet or a regtest under that network's
/// name; any other address is refused.
pub open spec fn spec_check_address_for_network(address: Address, network: Network) -> Result<
    Address,
    WalletError,
> {
    if network_accepts(address.network, network) && address.network == network {
        Ok(address)
    } else if network_accepts(address.network, network) && address.network == Network::Testnet
        && (network == Network::Devnet || network == Network::Regtest) {
        Ok(Address { network, kind: address.kind, hash: address.hash })
    } else {
        Err(
            WalletError::AddressError(
                AddressError::NetworkValidation {
                    required: network,
                    found: address.network,
                    address,
                },
            ),
        )
    }
}

/// Ensure the address is valid for the given network and update its network
/// if necessary.
pub fn check_address_for_network(address_unchecked: Address, network: &Network) -> (result:
    Result<Address, WalletError>)
    ensures
        result == spec_check_address_for_network(address_unchecked, *network),
{
    let refused = Err(
        WalletError::AddressError(
            AddressError::NetworkValidation {
                required: *network,
                found: address_unchecked.network,
                address: address_unchecked,
            },
        ),
    );
    if !address_unchecked.is_valid_for_network(*network) {
        return refused;
    }
    if address_unchecked.network == *network {
        return Ok(address_unchecked);
    }
    match (address_unchecked.network, *network) {
        (Network::Testnet, Network::Devnet) => Ok(address_unchecked.with_network(*network)),
        (Network::Testnet, Network::Regtest) => Ok(address_unchecked.with_network(*network)),
        _ => refused,
    }
}

/// A row of the table of wallets.
#[derive(Debug, PartialEq, Eq)]
pub struct WalletRow {
    pub info: WalletInfo,
    pub network: Network,
}

pub struct WalletRowView {
    pub info: WalletInfoView,
    pub network: Network,
}

impl View for WalletRow {
    type V = WalletRowView;

    open spec fn view(&self) -> WalletRowView {
        WalletRowView { info: self.info@, network: self.network }
    }
}

/// A row of the table of addresses.
#[derive(Debug, PartialEq, Eq)]
pub struct AddressRow {
    pub seed_hash: WalletSeedHash,
    pub address: Address,
    pub derivation_path: DerivationPath,
    /// The use of the path, as a number.
    pub path_reference: u32,
    /// The kind of the path, as flags.
    pub path_type: u32,
    pub balance: Option<u64>,
}

pub struct AddressRowView {
    pub seed_hash: WalletSeedHash,
    pub address: Address,
    pub derivation_path: Seq<u32>,
    pub path_reference: u32,
    pub path_type: u32,
    pub balance: Option<u64>,
}

impl View for AddressRow {
    type V = AddressRowView;

    open spec fn view(&self) -> AddressRowView {
        AddressRowView {
            seed_hash: self.seed_hash,
            address: self.address,
            derivation_path: self.derivation_path@,
            path_reference: self.path_reference,
            path_type: self.path_type,
            balance: self.balance,
        }
    }
}

/// A row of the table of unspent outputs.
#[derive(Debug, PartialEq, Eq)]
pub struct UtxoRow {
    pub utxo: Utxo,
    pub network: Network,
}

pub struct UtxoRowView {
    pub utxo: UtxoView,
    pub network: Network,
}

impl View for UtxoRow {
    type V = UtxoRowView;

    open spec fn view(&self) -> UtxoRowView {
        UtxoRowView { utxo: self.utxo@, network: self.network }
    }
}

/// A row of the table of funding transactions. A row without an identity
/// id is a transaction that no identity has used yet.
#[derive(Debug, PartialEq, Eq)]
pub struct AssetLockRow {
    pub txid: Txid,
    /// The transaction, serialized.
    pub transaction: Vec<u8>,
    /// The address that the first credit output pays.
    pub address: Address,
    /// The value of the credit output.
    pub amount: u64,
    pub instant_lock: Option<Vec<u8>>,
    pub chain_locked_height: Option<u32>,
    /// The identity that the transaction has funded.
    pub identity_id: Option<Identifier>,
    /// The identity whose registration with this transaction has been sent
    /// and not yet confirmed.
    pub identity_id_potentially_in_creation: Option<Identifier>,
    pub wallet: WalletSeedHash,
    pub network: Network,
}

pub struct AssetLockRowView {
    pub txid: Txid,
    pub transaction: Seq<u8>,
    pub address: Address,
    pub amount: u64,
    pub instant_lock: Option<Seq<u8>>,
    pub chain_locked_height: Option<u32>,
    pub identity_id: Option<Identifier>,
    pub identity_id_potentially_in_creation: Option<Identifier>,
    pub wallet: WalletSeedHash,
    pub network: Network,
}

impl View for AssetLockRow {
    type V = AssetLockRowView;

    open spec fn view(&self) -> AssetLockRowView {
        AssetLockRowView {
            txid: self.txid,
            transaction: self.transaction@,
            address: self.address,
            amount: self.amount,
            instant_lock: bytes_option_view(self.instant_lock),
            chain_locked_height: self.chain_locked_height,
            identity_id: self.identity_id,
            identity_id_potentially_in_creation: self.identity_id_potentially_in_creation,
            wallet: self.wallet,
            network: self.network,
        }
    }
}

/// A row of the table of identities.
#[derive(Debug, PartialEq, Eq)]
pub struct IdentityRow {
    pub identity: QualifiedIdentity,
    /// The wallet that funded the identity.
    pub wallet: Option<WalletSeedHash>,
    /// The index under which that wallet holds the identity.
    pub wallet_index: Option<u32>,
    pub network: Network,
}

pub struct IdentityRowView {
    pub identity: QualifiedIdentityView,
    pub wallet: Option<WalletSeedHash>,
    pub wallet_index: Option<u32>,
    pub network: Network,
}

impl View for IdentityRow {
    type V = IdentityRowView;

    open spec fn view(&self) -> IdentityRowView {
        IdentityRowView {
            identity: self.identity@,
            wallet: self.wallet,
            wallet_index: self.wallet_index,
            network: self.network,
        }
    }
}

/// The tables.
pub struct Database {
    wallets: Vec<WalletRow>,
    wallet_addresses: Vec<AddressRow>,
    utxos: Vec<UtxoRow>,
    asset_lock_transactions: Vec<AssetLockRow>,
    identities: Vec<IdentityRow>,
}

/// The content of the tables, each in the order in which its rows were
/// written.
pub struct DatabaseView {
    pub wallets: Seq<WalletRowView>,
    pub wallet_addresses: Seq<AddressRowView>,
    pub utxos: Seq<UtxoRowView>,
    pub asset_lock_transactions: Seq<AssetLockRowView>,
    pub identities: Seq<IdentityRowView>,
}

impl DatabaseView {
    /// The table of wallets holds a row for the wallet `seed_hash`.
    pub open spec fn has_wallet(self, seed_hash: WalletSeedHash) -> bool {
        exists|i: int|
            0 <= i < self.wallets.len() && (#[trigger] self.wallets[i]).info.wallet_seed.seed_hash()
                == seed_hash
    }

    /// The table of addresses holds a row for `address` of the wallet
    /// `seed_hash`.
    pub open spec fn has_address(self, seed_hash: WalletSeedHash, address: Address) -> bool {
        exists|i: int|
            0 <= i < self.wallet_addresses.len() && (#[trigger] self.wallet_addresses[i]).seed_hash
                == seed_hash && self.wallet_addresses[i].address == address
    }

    /// No two rows of the table of wallets are of the same wallet.
    pub open spec fn wf(self) -> bool {
        forall|i: int, j: int|
            0 <= i < j < self.wallets.len() ==> (
            #[trigger] self.wallets[i]).info.wallet_seed.seed_hash() != (
            #[trigger] self.wallets[j]).info.wallet_seed.seed_hash()
    }
}

/// The rows of wallets after the alias of the wallet `seed_hash` was set.
pub open spec fn with_wallet_alias(
    rows: Seq<WalletRowView>,
    seed_hash: WalletSeedHash,
    alias: Option<Seq<char>>,
) -> Seq<WalletRowView> {
    Seq::new(
        rows.len(),
        |i: int|
            if rows[i].info.wallet_seed.seed_hash() == seed_hash {
                WalletRowView { info: WalletInfoView { alias, ..rows[i].info }, ..rows[i] }
            } else {
                rows[i]
            },
    )
}

/// The rows of wallets after the alias of the wallet `seed_hash` was set,
/// and whether it is the main wallet.
pub open spec fn with_wallet_alias_and_main(
    rows: Seq<WalletRowView>,
    seed_hash: WalletSeedHash,
    alias: Option<Seq<char>>,
    is_main: bool,
) -> Seq<WalletRowView> {
    Seq::new(
        rows.len(),
        |i: int|
            if rows[i].info.wallet_seed.seed_hash() == seed_hash {
                WalletRowView { info: WalletInfoView { alias, is_main, ..rows[i].info }, ..rows[i] }
            } else {
                rows[i]
            },
    )
}

/// The rows of addresses after the balance of `address` of the wallet
/// `seed_hash` was set.
pub open spec fn with_address_balance(
    rows: Seq<AddressRowView>,
    seed_hash: WalletSeedHash,
    address: Address,
    balance: u64,
) -> Seq<AddressRowView> {
    Seq::new(
        rows.len(),
        |i: int|
            if rows[i].seed_hash == seed_hash && rows[i].address == address {
                AddressRowView { balance: Some(balance), ..rows[i] }
            } else {
                rows[i]
            },
    )
}

/// The rows of addresses after `additional` was added to the balance of
/// `address` of the wallet `seed_hash`. A row without a balance stays
/// without one.
pub open spec fn with_added_address_balance(
    rows: Seq<AddressRowView>,
    seed_hash: WalletSeedHash,
    address: Address,
    additional: u64,
) -> Seq<AddressRowView> {
    Seq::new(
        rows.len(),
        |i: int|
            if rows[i].seed_hash == seed_hash && rows[i].address == address
                && rows[i].balance is Some {
                AddressRowView {
                    balance: Some((rows[i].balance->0 + additional) as u64),
                    ..rows[i]
                }
            } else {
                rows[i]
            },
    )
}

/// Adding `additional` would take the balance of a row of `address` of the
/// wallet `seed_hash` beyond 64 bits.
pub open spec fn address_balance_overflows(
    rows: Seq<AddressRowView>,
    seed_hash: WalletSeedHash,
    address: Address,
    additional: u64,
) -> bool {
    exists|i: int|
        0 <= i < rows.len() && (#[trigger] rows[i]).seed_hash == seed_hash && rows[i].address
            == address && rows[i].balance is Some && rows[i].balance->0 + additional > u64::MAX
}

impl Database {
    pub closed spec fn view(&self) -> DatabaseView {
        DatabaseView {
            wallets: views(self.wallets@),
            wallet_addresses: views(self.wallet_addresses@),
            utxos: views(self.utxos@),
            asset_lock_transactions: views(self.asset_lock_transactions@),
            identities: views(self.identities@),
        }
    }

    /// Empty tables.
    pub fn new() -> (db: Database)
        ensures
            db@.wf(),
            db@ == (DatabaseView {
                wallets: Seq::empty(),
                wallet_addresses: Seq::empty(),
                utxos: Seq::empty(),
                asset_lock_transactions: Seq::empty(),
                identities: Seq::empty(),
            }),
    {
        let db = Database {
            wallets: Vec::new(),
            wallet_addresses: Vec::new(),
            utxos: Vec::new(),
            asset_lock_transactions: Vec::new(),
            identities: Vec::new(),
        };
        assert(db@.wallets =~= Seq::empty());
        assert(db@.wallet_addresses =~= Seq::empty());
        assert(db@.utxos =~= Seq::empty());
        assert(db@.asset_lock_transactions =~= Seq::empty());
        assert(db@.identities =~= Seq::empty());
        db
    }

    fn find_wallet(&self, seed_hash: &WalletSeedHash) -> (found: Option<usize>)
        ensures
            match found {
                Some(i) => i < self@.wallets.len() && self@.wallets[i as int].info.wallet_seed.seed_hash()
                    == *seed_hash,
                None => !self@.has_wallet(*seed_hash),
            },
    {
        let mut i: usize = 0;
        while i < self.wallets.len()
            invariant
                i <= self.wallets.len(),
                self.wallets@.len() == self@.wallets.len(),
                forall|k: int|
                    0 <= k < i ==> (#[trigger] self@.wallets[k]).info.wallet_seed.seed_hash()
                        != *seed_hash,
            decreases self.wallets.len() - i,
        {
            let stored = self.wallets[i].info.wallet_seed.seed_hash();
            if bytes_eq(&stored, seed_hash) {
                return Some(i);
            }
            i = i + 1;
        }
        None
    }

    /// Insert a new wallet into the wallet table. The table holds one row
    /// for a wallet: a second one is refused.
    pub fn store_wallet(&mut self, wallet: &Wallet, network: &Network) -> (result: Result<
        (),
        DatabaseError,
    >)
        requires
            old(self)@.wf(),
        ensures
            final(self)@.wf(),
            result == if old(self)@.has_wallet(wallet@.seed_hash()) {
                Err::<(), DatabaseError>(DatabaseError::ConstraintViolation)
            } else {
                Ok(())
            },
            result is Ok ==> final(self)@ == (DatabaseView {
                wallets: old(self)@.wallets.push(
                    WalletRowView { info: wallet@.info, network: *network },
                ),
                ..old(self)@
            }),
            result is Err ==> final(self)@ == old(self)@,
    {
        let info = wallet.info().clone();
        let seed_hash = info.wallet_seed.seed_hash();
        if self.find_wallet(&seed_hash).is_some() {
            return Err(DatabaseError::ConstraintViolation);
        }
        let ghost row = WalletRowView { info: info@, network: *network };
        self.wallets.push(WalletRow { info, network: *network });
        proof {
            assert(self@.wallets =~= old(self)@.wallets.push(row));
            assert forall|i: int, j: int| 0 <= i < j < self@.wallets.len() implies (
            #[trigger] self@.wallets[i]).info.wallet_seed.seed_hash() != (
            #[trigger] self@.wallets[j]).info.wallet_seed.seed_hash() by {
                assert(self@.wallets[i] == old(self)@.wallets[i]);
                if j < old(self)@.wallets.len() {
                    assert(self@.wallets[j] == old(self)@.wallets[j]);
                }
            }
        }
        Ok(())
    }

    /// Update the alias of a wallet based on the seed. If the alias is
    /// `None`, the row holds no alias afterwards. The statement succeeds
    /// also where there is no row for the wallet.
    pub fn set_wallet_alias(&mut self, seed_hash: &WalletSeedHash, new_alias: Option<String>) -> (result:
        Result<(), DatabaseError>)
        requires
            old(self)@.wf(),
        ensures
            final(self)@.wf(),
            result is Ok,
            final(self)@ == (DatabaseView {
                wallets: with_wallet_alias(
                    old(self)@.wallets,
                    *seed_hash,
                    text_option_view(new_alias),
                ),
                ..old(self)@
            }),
    {
        let ghost before = self@.wallets;
        let ghost alias = text_option_view(new_alias);
        let mut i: usize = 0;
        while i < self.wallets.len()
            invariant
                i <= self.wallets.len(),
                self.wallets@.len() == before.len(),
                self.wallet_addresses == old(self).wallet_addresses,
                self.utxos == old(self).utxos,
                self.asset_lock_transactions == old(self).asset_lock_transactions,
                self.identities == old(self).identities,
                alias == text_option_view(new_alias),
                forall|k: int|
                    0 <= k < i ==> (#[trigger] self.wallets@[k])@ == with_wallet_alias(
                        before,
                        *seed_hash,
                        alias,
                    )[k],
                forall|k: int| i <= k < before.len() ==> (#[trigger] self.wallets@[k])@ == before[k],
            decreases self.wallets.len() - i,
        {
            let stored = self.wallets[i].info.wallet_seed.seed_hash();
            if bytes_eq(&stored, seed_hash) {
                self.wallets[i].info.alias = clone_text_option(&new_alias);
            }
            i = i + 1;
        }
        proof {
            assert(self@.wallets =~= with_wallet_alias(before, *seed_hash, alias));
        }
        Ok(())
    }

    /// Update only the alias and is_main fields of a wallet.
    pub fn update_wallet_alias_and_main(
        &mut self,
        seed_hash: &WalletSeedHash,
        new_alias: Option<String>,
        is_main: bool,
    ) -> (result: Result<(), DatabaseError>)
        requires
            old(self)@.wf(),
        ensures
            final(self)@.wf(),
            result is Ok,
            final(self)@ == (DatabaseView {
                wallets: with_wallet_alias_and_main(
                    old(self)@.wallets,
                    *seed_hash,
                    text_option_view(new_alias),
                    is_main,
                ),
                ..old(self)@
            }),
    {
        let ghost before = self@.wallets;
        let ghost alias = text_option_view(new_alias);
        let mut i: usize = 0;
        while i < self.wallets.len()
            invariant
                i <= self.wallets.len(),
                self.wallets@.len() == before.len(),
                self.wallet_addresses == old(self).wallet_addresses,
                self.utxos == old(self).utxos,
                self.asset_lock_transactions == old(self).asset_lock_transactions,
                self.identities == old(self).identities,
                alias == text_option_view(new_alias),
                forall|k: int|
                    0 <= k < i ==> (#[trigger] self.wallets@[k])@ == with_wallet_alias_and_main(
                        before,
                        *seed_hash,
                        alias,
                        is_main,
                    )[k],
                forall|k: int| i <= k < before.len() ==> (#[trigger] self.wallets@[k])@ == before[k],
            decreases self.wallets.len() - i,
        {
            let stored = self.wallets[i].info.wallet_seed.seed_hash();
            if bytes_eq(&stored, seed_hash) {
                self.wallets[i].info.alias = clone_text_option(&new_alias);
                self.wallets[i].info.is_main = is_main;
            }
            i = i + 1;
        }
        proof {
            assert(self@.wallets =~= with_wallet_alias_and_main(
                before,
                *seed_hash,
                alias,
                is_main,
            ));
        }
        Ok(())
    }

    fn find_address(&self, seed_hash: &WalletSeedHash, address: &Address) -> (found: bool)
        ensures
            found == self@.has_address(*seed_hash, *address),
    {
        let mut i: usize = 0;
        while i < self.wallet_addresses.len()
            invariant
                i <= self.wallet_addresses.len(),
                self.wallet_addresses@.len() == self@.wallet_addresses.len(),
                forall|k: int|
                    0 <= k < i ==> !((#[trigger] self@.wallet_addresses[k]).seed_hash == *seed_hash
                        && self@.wallet_addresses[k].address == *address),
            decreases self.wallet_addresses.len() - i,
        {
            if bytes_eq(&self.wallet_addresses[i].seed_hash, seed_hash)
                && self.wallet_addresses[i].address == *address {
                assert(self@.wallet_addresses[i as int].seed_hash == *seed_hash);
                return true;
            }
            i = i + 1;
        }
        false
    }

    /// Add a new address to a wallet with optional balance. If the address
    /// already exists, it does nothing.
    ///
    /// The address must be one that the wallet can use on `network`; it is
    /// stored as the wallet uses it there.
    pub fn add_address_if_not_exists(
        &mut self,
        seed_hash: &WalletSeedHash,
        address: &Address,
        network: &Network,
        derivation_path: &DerivationPath,
        path_reference: u32,
        path_type: u32,
        balance: Option<u64>,
    ) -> (result: Result<(), DatabaseError>)
        requires
            old(self)@.wf(),
            spec_check_address_for_network(*address, *network) is Ok,
        ensures
            final(self)@.wf(),
            result is Ok,
            final(self)@ == spec_add_address_if_not_exists(
                old(self)@,
                *seed_hash,
                spec_check_address_for_network(*address, *network)->Ok_0,
                derivation_path@,
                path_reference,
                path_type,
                balance,
            ),
    {
        let address = match check_address_for_network(*address, network) {
            Ok(address) => address,
            Err(e) => {
                return Err(DatabaseError::Wallet(e));
            },
        };
        if !self.find_address(seed_hash, &address) {
            let row = AddressRow {
                seed_hash: *seed_hash,
                address,
                derivation_path: derivation_path.clone(),
                path_reference,
                path_type,
                balance,
            };
            let ghost row_view = row@;
            self.wallet_addresses.push(row);
            assert(self@.wallet_addresses =~= old(self)@.wallet_addresses.push(row_view));
        }
        Ok(())
    }

    /// Update the balance of an existing address.
    pub fn update_address_balance(
        &mut self,
        seed_hash: &WalletSeedHash,
        address: &Address,
        new_balance: u64,
    ) -> (result: Result<(), DatabaseError>)
        requires
            old(self)@.wf(),
        ensures
            final(self)@.wf(),
            result == if old(self)@.has_address(*seed_hash, *address) {
                Ok::<(), DatabaseError>(())
            } else {
                Err(DatabaseError::QueryReturnedNoRows)
            },
            final(self)@ == (DatabaseView {
                wallet_addresses: with_address_balance(
                    old(self)@.wallet_addresses,
                    *seed_hash,
                    *address,
                    new_balance,
                ),
                ..old(self)@
            }),
    {
        let ghost before = self@.wallet_addresses;
        let mut rows_affected: usize = 0;
        let mut i: usize = 0;
        while i < self.wallet_addresses.len()
            invariant
                i <= self.wallet_addresses.len(),
                rows_affected <= i,
                self.wallet_addresses@.len() == before.len(),
                self.wallets == old(self).wallets,
                self.utxos == old(self).utxos,
                self.asset_lock_transactions == old(self).asset_lock_transactions,
                self.identities == old(self).identities,
                rows_affected == 0 <==> forall|k: int|
                    0 <= k < i ==> !((#[trigger] before[k]).seed_hash == *seed_hash
                        && before[k].address == *address),
                forall|k: int|
                    0 <= k < i ==> (#[trigger] self.wallet_addresses@[k])@ == with_address_balance(
                        before,
                        *seed_hash,
                        *address,
                        new_balance,
                    )[k],
                forall|k: int|
                    i <= k < before.len() ==> (#[trigger] self.wallet_addresses@[k])@ == before[k],
            decreases self.wallet_addresses.len() - i,
        {
            if bytes_eq(&self.wallet_addresses[i].seed_hash, seed_hash)
                && self.wallet_addresses[i].address == *address {
                assert(before[i as int].seed_hash == *seed_hash);
                self.wallet_addresses[i].balance = Some(new_balance);
                rows_affected = rows_affected + 1;
            }
            i = i + 1;
        }
        proof {
            assert(self@.wallet_addresses =~= with_address_balance(
                before,
                *seed_hash,
                *address,
                new_balance,
            ));
        }
        if rows_affected == 0 {
            Err(DatabaseError::QueryReturnedNoRows)
        } else {
            Ok(())
        }
    }
}

/// The tables after an address was added for a wallet, unless the table of
/// addresses held it already.
pub open spec fn spec_add_address_if_not_exists(
    db: DatabaseView,
    seed_hash: WalletSeedHash,
    address: Address,
    derivation_path: Seq<u32>,
    path_reference: u32,
    path_type: u32,
    balance: Option<u64>,
) -> DatabaseView {
    if db.has_address(seed_hash, address) {
        db
    } else {
        DatabaseView {
            wallet_addresses: db.wallet_addresses.push(
                AddressRowView {
                    seed_hash,
                    address,
                    derivation_path,
                    path_reference,
                    path_type,
                    balance,
                },
            ),
            ..db
        }
    }
}


/// The rows of unspent outputs without those on `network` whose outpoint is
/// in `spent`, in the same order.
pub open spec fn without_spent_rows(rows: Seq<UtxoRowView>, spent: Seq<OutPoint>, network: Network) -> Seq<
    UtxoRowView,
>
    decreases rows.len(),
{
    if rows.len() == 0 {
        rows
    } else if rows.last().network == network && spent.contains(rows.last().utxo.outpoint) {
        without_spent_rows(rows.drop_last(), spent, network)
    } else {
        without_spent_rows(rows.drop_last(), spent, network).push(rows.last())
    }
}

/// The table of unspent outputs holds a row for `outpoint` on `network`.
pub open spec fn has_utxo_row(rows: Seq<UtxoRowView>, outpoint: OutPoint, network: Network) -> bool {
    exists|i: int|
        0 <= i < rows.len() && (#[trigger] rows[i]).utxo.outpoint == outpoint && rows[i].network
            == network
}

/// No row that is left after spending is of a spent outpoint, and every
/// other row is left.
pub proof fn lemma_without_spent_rows(
    rows: Seq<UtxoRowView>,
    spent: Seq<OutPoint>,
    network: Network,
    outpoint: OutPoint,
    on: Network,
)
    ensures
        has_utxo_row(without_spent_rows(rows, spent, network), outpoint, on) <==> has_utxo_row(
            rows,
            outpoint,
            on,
        ) && !(on == network && spent.contains(outpoint)),
    decreases rows.len(),
{
    let left = without_spent_rows(rows, spent, network);
    if rows.len() > 0 {
        let rest = rows.drop_last();
        let last = rows.last();
        let left_rest = without_spent_rows(rest, spent, network);
        lemma_without_spent_rows(rest, spent, network, outpoint, on);
        if has_utxo_row(left, outpoint, on) {
            let i = choose|i: int|
                0 <= i < left.len() && (#[trigger] left[i]).utxo.outpoint == outpoint
                    && left[i].network == on;
            if i < left_rest.len() {
                assert(left_rest[i] == left[i]);
                assert(has_utxo_row(left_rest, outpoint, on));
                let w = choose|w: int|
                    0 <= w < rest.len() && (#[trigger] rest[w]).utxo.outpoint == outpoint
                        && rest[w].network == on;
                assert(rows[w] == rest[w]);
            } else {
                assert(left[i] == last);
                assert(rows[rows.len() - 1] == last);
            }
        }
        if has_utxo_row(rows, outpoint, on) && !(on == network && spent.contains(outpoint)) {
            let w = choose|w: int|
                0 <= w < rows.len() && (#[trigger] rows[w]).utxo.outpoint == outpoint
                    && rows[w].network == on;
            if w < rest.len() {
                assert(rest[w] == rows[w]);
                assert(has_utxo_row(left_rest, outpoint, on));
                let i = choose|i: int|
                    0 <= i < left_rest.len() && (#[trigger] left_rest[i]).utxo.outpoint
                        == outpoint && left_rest[i].network == on;
                assert(left[i] == left_rest[i]);
            } else {
                assert(left[left.len() - 1] == last);
            }
        }
    }
}

/// The rows of funding transactions after a column of the rows of `txid`
/// was set: the identity that the transaction funded, or the identity whose
/// registration with it has been sent.
pub open spec fn with_asset_lock_identity(
    rows: Seq<AssetLockRowView>,
    txid: Txid,
    identity_id: Identifier,
    confirmed: bool,
) -> Seq<AssetLockRowView> {
    Seq::new(
        rows.len(),
        |i: int|
            if rows[i].txid != txid {
                rows[i]
            } else if confirmed {
                AssetLockRowView { identity_id: Some(identity_id), ..rows[i] }
            } else {
                AssetLockRowView {
                    identity_id_potentially_in_creation: Some(identity_id),
                    ..rows[i]
                }
            },
    )
}

/// The rows of identities without those of the identity `id` on `network`.
pub open spec fn without_identity(rows: Seq<IdentityRowView>, id: Identifier, network: Network) -> Seq<
    IdentityRowView,
>
    decreases rows.len(),
{
    if rows.len() == 0 {
        rows
    } else if rows.last().network == network && rows.last().identity.identity.id == id {
        without_identity(rows.drop_last(), id, network)
    } else {
        without_identity(rows.drop_last(), id, network).push(rows.last())
    }
}

/// The status that the table of identities holds for the identity `id` on
/// `network`: that of the last row written for it.
pub open spec fn stored_identity_status(rows: Seq<IdentityRowView>, id: Identifier, network: Network) -> Option<
    IdentityStatus,
>
    decreases rows.len(),
{
    if rows.len() == 0 {
        None
    } else if rows.last().network == network && rows.last().identity.identity.id == id {
        Some(rows.last().identity.status)
    } else {
        stored_identity_status(rows.drop_last(), id, network)
    }
}

/// The tables after the record of an identity was written in place of what
/// they held of that identity.
pub open spec fn spec_insert_identity(
    db: DatabaseView,
    identity: QualifiedIdentityView,
    wallet_and_index: Option<(WalletSeedHash, u32)>,
    network: Network,
) -> DatabaseView {
    DatabaseView {
        identities: without_identity(db.identities, identity.identity.id, network).push(
            IdentityRowView {
                identity,
                wallet: match wallet_and_index {
                    Some(pair) => Some(pair.0),
                    None => None,
                },
                wallet_index: match wallet_and_index {
                    Some(pair) => Some(pair.1),
                    None => None,
                },
                network,
            },
        ),
        ..db
    }
}

/// A record that was written is what a query returns, whatever the table
/// held of the identity before.
pub proof fn lemma_written_status_is_read(
    db: DatabaseView,
    identity: QualifiedIdentityView,
    wallet_and_index: Option<(WalletSeedHash, u32)>,
    network: Network,
)
    ensures
        stored_identity_status(
            spec_insert_identity(db, identity, wallet_and_index, network).identities,
            identity.identity.id,
            network,
        ) == Some(identity.status),
{
}

impl Database {
    /// Add a balance to an existing address. A row that holds no balance
    /// stays without one. Where a balance would no longer fit in 64 bits,
    /// no row is changed.
    pub fn add_to_address_balance(
        &mut self,
        seed_hash: &WalletSeedHash,
        address: &Address,
        additional_balance: u64,
    ) -> (result: Result<(), DatabaseError>)
        requires
            old(self)@.wf(),
        ensures
            final(self)@.wf(),
            result == if address_balance_overflows(
                old(self)@.wallet_addresses,
                *seed_hash,
                *address,
                additional_balance,
            ) {
                Err::<(), DatabaseError>(DatabaseError::IntegerOverflow)
            } else if old(self)@.has_address(*seed_hash, *address) {
                Ok(())
            } else {
                Err(DatabaseError::QueryReturnedNoRows)
            },
            final(self)@ == if result == Err::<(), DatabaseError>(DatabaseError::IntegerOverflow) {
                old(self)@
            } else {
                DatabaseView {
                    wallet_addresses: with_added_address_balance(
                        old(self)@.wallet_addresses,
                        *seed_hash,
                        *address,
                        additional_balance,
                    ),
                    ..old(self)@
                }
            },
    {
        let ghost before = self@.wallet_addresses;
        let mut i: usize = 0;
        while i < self.wallet_addresses.len()
            invariant
                i <= self.wallet_addresses.len(),
                self == old(self),
                old(self)@.wf(),
                before == self@.wallet_addresses,
                forall|k: int|
                    0 <= k < i ==> !((#[trigger] before[k]).seed_hash == *seed_hash
                        && before[k].address == *address && before[k].balance is Some
                        && before[k].balance->0 + additional_balance > u64::MAX),
            decreases self.wallet_addresses.len() - i,
        {
            if bytes_eq(&self.wallet_addresses[i].seed_hash, seed_hash)
                && self.wallet_addresses[i].address == *address {
                match self.wallet_addresses[i].balance {
                    Some(balance) => {
                        if balance > u64::MAX - additional_balance {
                            assert(before[i as int].seed_hash == *seed_hash);
                            return Err(DatabaseError::IntegerOverflow);
                        }
                    },
                    None => {},
                }
            }
            i = i + 1;
        }
        let mut rows_affected: usize = 0;
        let mut i: usize = 0;
        while i < self.wallet_addresses.len()
            invariant
                i <= self.wallet_addresses.len(),
                rows_affected <= i,
                self.wallet_addresses@.len() == before.len(),
                before == old(self)@.wallet_addresses,
                self.wallets == old(self).wallets,
                self.utxos == old(self).utxos,
                self.asset_lock_transactions == old(self).asset_lock_transactions,
                self.identities == old(self).identities,
                !address_balance_overflows(before, *seed_hash, *address, additional_balance),
                rows_affected == 0 <==> forall|k: int|
                    0 <= k < i ==> !((#[trigger] before[k]).seed_hash == *seed_hash
                        && before[k].address == *address),
                forall|k: int|
                    0 <= k < i ==> (#[trigger] self.wallet_addresses@[k])@
                        == with_added_address_balance(
                        before,
                        *seed_hash,
                        *address,
                        additional_balance,
                    )[k],
                forall|k: int|
                    i <= k < before.len() ==> (#[trigger] self.wallet_addresses@[k])@ == before[k],
            decreases self.wallet_addresses.len() - i,
        {
            if bytes_eq(&self.wallet_addresses[i].seed_hash, seed_hash)
                && self.wallet_addresses[i].address == *address {
                assert(before[i as int].seed_hash == *seed_hash);
                match self.wallet_addresses[i].balance {
                    Some(balance) => {
                        self.wallet_addresses[i].balance = Some(balance + additional_balance);
                    },
                    None => {},
                }
                rows_affected = rows_affected + 1;
            }
            i = i + 1;
        }
        proof {
            assert(self@.wallet_addresses =~= with_added_address_balance(
                before,
                *seed_hash,
                *address,
                additional_balance,
            ));
        }
        if rows_affected == 0 {
            Err(DatabaseError::QueryReturnedNoRows)
        } else {
            Ok(())
        }
    }

    /// Tells whether the table of unspent outputs holds a row for
    /// `outpoint` on `network`.
    pub fn has_utxo(&self, outpoint: &OutPoint, network: &Network) -> (found: bool)
        ensures
            found == has_utxo_row(self@.utxos, *outpoint, *network),
    {
        let mut i: usize = 0;
        while i < self.utxos.len()
            invariant
                i <= self.utxos.len(),
                self.utxos@.len() == self@.utxos.len(),
                forall|k: int|
                    0 <= k < i ==> !((#[trigger] self@.utxos[k]).utxo.outpoint == *outpoint
                        && self@.utxos[k].network == *network),
            decreases self.utxos.len() - i,
        {
            if self.utxos[i].utxo.outpoint == *outpoint && self.utxos[i].network == *network {
                assert(self@.utxos[i as int].utxo.outpoint == *outpoint);
                return true;
            }
            i = i + 1;
        }
        false
    }

    /// Writes an unspent output, unless the table holds its outpoint on
    /// `network` already.
    pub fn insert_utxo(&mut self, utxo: &Utxo, network: &Network) -> (inserted: bool)
        requires
            old(self)@.wf(),
        ensures
            final(self)@.wf(),
            inserted == !has_utxo_row(old(self)@.utxos, utxo.outpoint, *network),
            inserted ==> final(self)@ == (DatabaseView {
                utxos: old(self)@.utxos.push(UtxoRowView { utxo: utxo@, network: *network }),
                ..old(self)@
            }),
            !inserted ==> final(self)@ == old(self)@,
    {
        if self.has_utxo(&utxo.outpoint, network) {
            return false;
        }
        let row = UtxoRow { utxo: utxo.clone(), network: *network };
        let ghost row_view = row@;
        self.utxos.push(row);
        assert(self@.utxos =~= old(self)@.utxos.push(row_view));
        true
    }

    /// Deletes the rows of the outpoints in `spent` on `network` from the
    /// table of unspent outputs.
    pub fn drop_utxos(&mut self, spent: &Vec<OutPoint>, network: &Network)
        requires
            old(self)@.wf(),
        ensures
            final(self)@.wf(),
            final(self)@ == (DatabaseView {
                utxos: without_spent_rows(old(self)@.utxos, spent@, *network),
                ..old(self)@
            }),
    {
        let ghost before = self@.utxos;
        let mut kept: Vec<UtxoRow> = Vec::new();
        let mut i: usize = 0;
        while i < self.utxos.len()
            invariant
                i <= self.utxos.len(),
                self == old(self),
                before == views(self.utxos@),
                views(kept@) == without_spent_rows(before.take(i as int), spent@, *network),
            decreases self.utxos.len() - i,
        {
            proof {
                assert(before.take(i + 1).drop_last() =~= before.take(i as int));
                assert(before.take(i + 1).last() == before[i as int]);
            }
            if !(self.utxos[i].network == *network && crate::chain::contains_outpoint(
                spent,
                &self.utxos[i].utxo.outpoint,
            )) {
                let ghost so_far = views(kept@);
                kept.push(UtxoRow { utxo: self.utxos[i].utxo.clone(), network: self.utxos[i].network });
                assert(views(kept@) =~= so_far.push(before[i as int]));
            }
            i = i + 1;
        }
        assert(before.take(i as int) =~= before);
        self.utxos = kept;
    }

    /// Deletes the row of `outpoint` on `network` from the table of unspent
    /// outputs.
    pub fn drop_utxo(&mut self, outpoint: &OutPoint, network: &Network)
        requires
            old(self)@.wf(),
        ensures
            final(self)@.wf(),
            final(self)@ == (DatabaseView {
                utxos: without_spent_rows(old(self)@.utxos, seq![*outpoint], *network),
                ..old(self)@
            }),
    {
        let mut spent: Vec<OutPoint> = Vec::new();
        spent.push(*outpoint);
        assert(spent@ =~= seq![*outpoint]);
        self.drop_utxos(&spent, network);
    }

    /// Writes a funding transaction.
    pub fn store_asset_lock_transaction(&mut self, row: AssetLockRow)
        requires
            old(self)@.wf(),
        ensures
            final(self)@.wf(),
            final(self)@ == (DatabaseView {
                asset_lock_transactions: old(self)@.asset_lock_transactions.push(row@),
                ..old(self)@
            }),
    {
        let ghost row_view = row@;
        self.asset_lock_transactions.push(row);
        assert(self@.asset_lock_transactions =~= old(self)@.asset_lock_transactions.push(
            row_view,
        ));
    }

    fn mark_asset_lock(&mut self, tx_id: &Txid, identity_id: &Identifier, confirmed: bool)
        requires
            old(self)@.wf(),
        ensures
            final(self)@.wf(),
            final(self)@ == (DatabaseView {
                asset_lock_transactions: with_asset_lock_identity(
                    old(self)@.asset_lock_transactions,
                    *tx_id,
                    *identity_id,
                    confirmed,
                ),
                ..old(self)@
            }),
    {
        let ghost before = self@.asset_lock_transactions;
        let mut i: usize = 0;
        while i < self.asset_lock_transactions.len()
            invariant
                i <= self.asset_lock_transactions.len(),
                self.asset_lock_transactions@.len() == before.len(),
                self.wallets == old(self).wallets,
                self.wallet_addresses == old(self).wallet_addresses,
                self.utxos == old(self).utxos,
                self.identities == old(self).identities,
                forall|k: int|
                    0 <= k < i ==> (#[trigger] self.asset_lock_transactions@[k])@
                        == with_asset_lock_identity(before, *tx_id, *identity_id, confirmed)[k],
                forall|k: int|
                    i <= k < before.len() ==> (#[trigger] self.asset_lock_transactions@[k])@
                        == before[k],
            decreases self.asset_lock_transactions.len() - i,
        {
            if bytes_eq(&self.asset_lock_transactions[i].txid, tx_id) {
                if confirmed {
                    self.asset_lock_transactions[i].identity_id = Some(*identity_id);
                } else {
                    self.asset_lock_transactions[i].identity_id_potentially_in_creation = Some(
                        *identity_id,
                    );
                }
            }
            i = i + 1;
        }
        proof {
            assert(self@.asset_lock_transactions =~= with_asset_lock_identity(
                before,
                *tx_id,
                *identity_id,
                confirmed,
            ));
        }
    }

    /// Records the identity that the funding transaction `tx_id` has
    /// funded.
    pub fn set_asset_lock_identity_id(&mut self, tx_id: &Txid, identity_id: &Identifier)
        requires
            old(self)@.wf(),
        ensures
            final(self)@.wf(),
            final(self)@ == (DatabaseView {
                asset_lock_transactions: with_asset_lock_identity(
                    old(self)@.asset_lock_transactions,
                    *tx_id,
                    *identity_id,
                    true,
                ),
                ..old(self)@
            }),
    {
        self.mark_asset_lock(tx_id, identity_id, true);
    }

    /// Records the identity whose registration with the funding transaction
    /// `tx_id` is about to be sent.
    pub fn set_asset_lock_identity_id_before_confirmation_by_network(
        &mut self,
        tx_id: &Txid,
        identity_id: &Identifier,
    )
        requires
            old(self)@.wf(),
        ensures
            final(self)@.wf(),
            final(self)@ == (DatabaseView {
                asset_lock_transactions: with_asset_lock_identity(
                    old(self)@.asset_lock_transactions,
                    *tx_id,
                    *identity_id,
                    false,
                ),
                ..old(self)@
            }),
    {
        self.mark_asset_lock(tx_id, identity_id, false);
    }

    /// Writes the record of an identity, in place of what the table held of
    /// that identity on `network`.
    pub fn insert_local_qualified_identity(
        &mut self,
        qualified_identity: &QualifiedIdentity,
        wallet_and_identity_id_info: &Option<(WalletSeedHash, u32)>,
        network: &Network,
    )
        requires
            old(self)@.wf(),
        ensures
            final(self)@.wf(),
            final(self)@ == spec_insert_identity(
                old(self)@,
                qualified_identity@,
                *wallet_and_identity_id_info,
                *network,
            ),
            stored_identity_status(
                final(self)@.identities,
                qualified_identity.identity.id,
                *network,
            ) == Some(qualified_identity.status),
    {
        let ghost before = self@.identities;
        let id = qualified_identity.identity.id;
        let mut kept: Vec<IdentityRow> = Vec::new();
        let mut i: usize = 0;
        while i < self.identities.len()
            invariant
                i <= self.identities.len(),
                self == old(self),
                before == views(self.identities@),
                id == qualified_identity.identity.id,
                views(kept@) == without_identity(before.take(i as int), id, *network),
            decreases self.identities.len() - i,
        {
            proof {
                assert(before.take(i + 1).drop_last() =~= before.take(i as int));
                assert(before.take(i + 1).last() == before[i as int]);
            }
            if !(self.identities[i].network == *network && bytes_eq(
                &self.identities[i].identity.identity.id,
                &id,
            )) {
                let ghost so_far = views(kept@);
                kept.push(
                    IdentityRow {
                        identity: self.identities[i].identity.clone(),
                        wallet: self.identities[i].wallet,
                        wallet_index: self.identities[i].wallet_index,
                        network: self.identities[i].network,
                    },
                );
                assert(views(kept@) =~= so_far.push(before[i as int]));
            }
            i = i + 1;
        }
        assert(before.take(i as int) =~= before);
        let (wallet, wallet_index) = match wallet_and_identity_id_info {
            Some(pair) => (Some(pair.0), Some(pair.1)),
            None => (None, None),
        };
        let row = IdentityRow {
            identity: qualified_identity.clone(),
            wallet,
            wallet_index,
            network: *network,
        };
        let ghost so_far = views(kept@);
        let ghost row_view = row@;
        kept.push(row);
        assert(views(kept@) =~= so_far.push(row_view));
        self.identities = kept;
    }

    /// The status that the table of identities holds for the identity `id`
    /// on `network`, if it holds the identity.
    pub fn identity_status(&self, id: &Identifier, network: &Network) -> (status: Option<
        IdentityStatus,
    >)
        ensures
            status == stored_identity_status(self@.identities, *id, *network),
    {
        let ghost rows = self@.identities;
        let mut i: usize = self.identities.len();
        assert(rows.take(i as int) =~= rows);
        while i > 0
            invariant
                i <= self.identities.len(),
                rows == views(self.identities@),
                stored_identity_status(rows, *id, *network) == stored_identity_status(
                    rows.take(i as int),
                    *id,
                    *network,
                ),
            decreases i,
        {
            proof {
                assert(rows.take(i as int).drop_last() =~= rows.take(i - 1));
                assert(rows.take(i as int).last() == rows[i - 1]);
            }
            i = i - 1;
            if self.identities[i].network == *network && bytes_eq(
                &self.identities[i].identity.identity.id,
                id,
            ) {
                return Some(self.identities[i].identity.status);
            }
        }
        None
    }
}


/// The wallet after a row of the table of addresses was read for
/// `network`. A row of another wallet, a row whose address the wallet
/// cannot use on the network, and a row whose path has no known use are
/// passed over. The balance of the row is not taken: the wallet keeps
/// for an address the sum of its unspent outputs.
pub open spec fn spec_load_address(wallet: WalletView, row: AddressRowView, network: Network) -> WalletView {
    let checked = spec_check_address_for_network(row.address, network);
    let reference = DerivationPathReference::spec_from_code(row.path_reference);
    if row.seed_hash == wallet.seed_hash() && checked is Ok && reference is Some {
        spec_register_address(
            wallet,
            KnownAddressView {
                address: checked->Ok_0,
                derivation_path: row.derivation_path,
                path_reference: reference->0,
                path_type: DerivationPathType {
                    bits: row.path_type & DERIVATION_PATH_TYPE_FLAGS,
                },
                balance: 0,
            },
        )
    } else {
        wallet
    }
}

/// The wallet after the rows of the table of addresses were read in order.
pub open spec fn spec_load_addresses(wallet: WalletView, rows: Seq<AddressRowView>, network: Network) -> WalletView
    decreases rows.len(),
{
    if rows.len() == 0 {
        wallet
    } else {
        spec_load_address(spec_load_addresses(wallet, rows.drop_last(), network), rows.last(), network)
    }
}

/// The wallet after a row of the table of unspent outputs was read for
/// `network`: the wallet takes the output if the row is of that network
/// and the wallet accepts the output.
pub open spec fn spec_load_utxo(wallet: WalletView, row: UtxoRowView, network: Network) -> WalletView {
    let output = TxOutView { value: row.utxo.value, script_pubkey: row.utxo.script_pubkey };
    if row.network == network && spec_add_utxo_outcome(
        wallet,
        row.utxo.address,
        row.utxo.outpoint,
        output,
    ) is Ok {
        spec_add_utxo(wallet, row.utxo.address, row.utxo.outpoint, output)
    } else {
        wallet
    }
}

/// The wallet after the rows of the table of unspent outputs were read in
/// order.
pub open spec fn spec_load_utxos(wallet: WalletView, rows: Seq<UtxoRowView>, network: Network) -> WalletView
    decreases rows.len(),
{
    if rows.len() == 0 {
        wallet
    } else {
        spec_load_utxo(spec_load_utxos(wallet, rows.drop_last(), network), rows.last(), network)
    }
}

/// The proof that a row of the table of funding transactions holds: its
/// instant lock where it has one, else its chain lock where it has one.
pub open spec fn spec_row_proof(row: AssetLockRowView) -> Option<AssetLockProofView> {
    if row.instant_lock is Some {
        Some(
            AssetLockProofView::Instant(
                InstantAssetLockProofView {
                    instant_lock: row.instant_lock->0,
                    transaction: row.transaction,
                    txid: row.txid,
                    output_index: FUNDING_OUTPUT_INDEX,
                },
            ),
        )
    } else if row.chain_locked_height is Some {
        Some(
            AssetLockProofView::Chain(
                ChainAssetLockProof {
                    core_chain_locked_height: row.chain_locked_height->0,
                    out_point: OutPoint { txid: row.txid, vout: FUNDING_OUTPUT_INDEX },
                },
            ),
        )
    } else {
        None
    }
}

/// The funding transaction that a row of the table stands for.
pub open spec fn spec_row_lock(row: AssetLockRowView) -> UnusedAssetLockView {
    UnusedAssetLockView {
        txid: row.txid,
        transaction: row.transaction,
        address: row.address,
        amount: row.amount,
        instant_lock: row.instant_lock,
        lock_proof: spec_row_proof(row),
    }
}

/// The wallet after a row of the table of funding transactions was read
/// for `network`: the wallet takes the transaction if it is its own, of
/// that network, and no identity has used it.
pub open spec fn spec_load_asset_lock(wallet: WalletView, row: AssetLockRowView, network: Network) -> WalletView {
    if row.network == network && row.identity_id is None && row.wallet == wallet.seed_hash() {
        WalletView {
            unused_asset_locks: wallet.unused_asset_locks.push(spec_row_lock(row)),
            ..wallet
        }
    } else {
        wallet
    }
}

/// The wallet after the rows of the table of funding transactions were read
/// in order.
pub open spec fn spec_load_asset_locks(wallet: WalletView, rows: Seq<AssetLockRowView>, network: Network) -> WalletView
    decreases rows.len(),
{
    if rows.len() == 0 {
        wallet
    } else {
        spec_load_asset_lock(
            spec_load_asset_locks(wallet, rows.drop_last(), network),
            rows.last(),
            network,
        )
    }
}

/// The wallet after a row of the table of identities was read for
/// `network`: the wallet takes the identity, under the index of the row,
/// if the row is of that network and names the wallet and an index.
pub open spec fn spec_load_identity(wallet: WalletView, row: IdentityRowView, network: Network) -> WalletView {
    if row.network == network && row.wallet == Some(wallet.seed_hash()) && row.wallet_index
        is Some {
        WalletView {
            identities: wallet.identities.insert(row.wallet_index->0, row.identity.identity),
            ..wallet
        }
    } else {
        wallet
    }
}

/// The wallet after the rows of the table of identities were read in order.
pub open spec fn spec_load_identities(wallet: WalletView, rows: Seq<IdentityRowView>, network: Network) -> WalletView
    decreases rows.len(),
{
    if rows.len() == 0 {
        wallet
    } else {
        spec_load_identity(
            spec_load_identities(wallet, rows.drop_last(), network),
            rows.last(),
            network,
        )
    }
}

/// A wallet that holds nothing.
pub open spec fn spec_empty_wallet(info: WalletInfoView) -> WalletView {
    WalletView {
        info,
        known_addresses: Seq::empty(),
        utxos: Seq::empty(),
        unused_asset_locks: Seq::empty(),
        identities: Map::empty(),
    }
}

/// The wallet that the tables hold for a row of the table of wallets: its
/// addresses, then its unspent outputs, then its unused funding
/// transactions, then its identities.
#[verifier::opaque]
pub open spec fn spec_wallet_from_rows(db: DatabaseView, info: WalletInfoView, network: Network) -> WalletView {
    spec_load_identities(
        spec_load_asset_locks(
            spec_load_utxos(
                spec_load_addresses(spec_empty_wallet(info), db.wallet_addresses, network),
                db.utxos,
                network,
            ),
            db.asset_lock_transactions,
            network,
        ),
        db.identities,
        network,
    )
}

/// The wallets are in the order of their seed hashes, and no two have the
/// same.
pub open spec fn sorted_by_seed_hash(wallets: Seq<WalletView>) -> bool {
    forall|i: int, j: int|
        0 <= i < j < wallets.len() ==> bytes_before(
            (#[trigger] wallets[i]).seed_hash()@,
            (#[trigger] wallets[j]).seed_hash()@,
        )
}

/// The views of a list of wallets.
pub open spec fn wallet_views(wallets: Seq<Wallet>) -> Seq<WalletView> {
    Seq::new(wallets.len(), |i: int| wallets[i]@)
}

/// `wallet` is what the tables hold for some row of `rows` that is of
/// `network`.
pub open spec fn is_wallet_of_row(
    wallet: WalletView,
    db: DatabaseView,
    rows: Seq<WalletRowView>,
    network: Network,
) -> bool {
    exists|r: int|
        0 <= r < rows.len() && (#[trigger] rows[r]).network == network && wallet
            == spec_wallet_from_rows(db, rows[r].info, network)
}

/// Some wallet of `wallets` has the seed hash `seed_hash`.
pub open spec fn has_seed_hash(wallets: Seq<WalletView>, seed_hash: WalletSeedHash) -> bool {
    exists|i: int| 0 <= i < wallets.len() && (#[trigger] wallets[i]).seed_hash() == seed_hash
}

/// The wallets are those that the tables hold for `network`: one for each
/// row of the table of wallets that is of that network, with the content
/// that the other tables give it.
pub open spec fn wallets_of_rows(
    wallets: Seq<WalletView>,
    db: DatabaseView,
    rows: Seq<WalletRowView>,
    network: Network,
) -> bool {
    &&& forall|i: int|
        0 <= i < wallets.len() ==> is_wallet_of_row(#[trigger] wallets[i], db, rows, network)
    &&& forall|r: int|
        0 <= r < rows.len() && (#[trigger] rows[r]).network == network ==> has_seed_hash(
            wallets,
            rows[r].info.wallet_seed.seed_hash(),
        )
}

/// Reading rows into a wallet leaves its seed as it is.
pub proof fn lemma_loaded_wallet_keeps_info(db: DatabaseView, info: WalletInfoView, network: Network)
    ensures
        spec_wallet_from_rows(db, info, network).info == info,
{
    reveal(spec_wallet_from_rows);
    let w0 = spec_empty_wallet(info);
    lemma_load_addresses_keeps_info(w0, db.wallet_addresses, network);
    let w1 = spec_load_addresses(w0, db.wallet_addresses, network);
    lemma_load_utxos_keeps_info(w1, db.utxos, network);
    let w2 = spec_load_utxos(w1, db.utxos, network);
    lemma_load_asset_locks_keeps_info(w2, db.asset_lock_transactions, network);
    let w3 = spec_load_asset_locks(w2, db.asset_lock_transactions, network);
    lemma_load_identities_keeps_info(w3, db.identities, network);
}

proof fn lemma_load_addresses_keeps_info(wallet: WalletView, rows: Seq<AddressRowView>, network: Network)
    ensures
        spec_load_addresses(wallet, rows, network).info == wallet.info,
    decreases rows.len(),
{
    if rows.len() > 0 {
        lemma_load_addresses_keeps_info(wallet, rows.drop_last(), network);
    }
}

proof fn lemma_load_utxos_keeps_info(wallet: WalletView, rows: Seq<UtxoRowView>, network: Network)
    ensures
        spec_load_utxos(wallet, rows, network).info == wallet.info,
    decreases rows.len(),
{
    if rows.len() > 0 {
        lemma_load_utxos_keeps_info(wallet, rows.drop_last(), network);
    }
}

proof fn lemma_load_asset_locks_keeps_info(wallet: WalletView, rows: Seq<AssetLockRowView>, network: Network)
    ensures
        spec_load_asset_locks(wallet, rows, network).info == wallet.info,
    decreases rows.len(),
{
    if rows.len() > 0 {
        lemma_load_asset_locks_keeps_info(wallet, rows.drop_last(), network);
    }
}

proof fn lemma_load_identities_keeps_info(wallet: WalletView, rows: Seq<IdentityRowView>, network: Network)
    ensures
        spec_load_identities(wallet, rows, network).info == wallet.info,
    decreases rows.len(),
{
    if rows.len() > 0 {
        lemma_load_identities_keeps_info(wallet, rows.drop_last(), network);
    }
}

/// The sum of the values of the rows of the table of unspent outputs.
pub open spec fn rows_value(rows: Seq<UtxoRowView>) -> nat
    decreases rows.len(),
{
    if rows.len() == 0 {
        0
    } else {
        rows_value(rows.drop_last()) + rows.last().utxo.value as nat
    }
}

/// The wallet read from the tables holds no unspent output but those of
/// the rows of its network.
pub proof fn lemma_loaded_outputs_are_rows(
    db: DatabaseView,
    info: WalletInfoView,
    network: Network,
    outpoint: OutPoint,
)
    requires
        spec_wallet_from_rows(db, info, network).holds(outpoint),
    ensures
        has_utxo_row(db.utxos, outpoint, network),
{
    reveal(spec_wallet_from_rows);
    let w1 = spec_load_addresses(spec_empty_wallet(info), db.wallet_addresses, network);
    let w2 = spec_load_utxos(w1, db.utxos, network);
    let w3 = spec_load_asset_locks(w2, db.asset_lock_transactions, network);
    lemma_load_addresses_keeps_utxos(spec_empty_wallet(info), db.wallet_addresses, network);
    lemma_load_asset_locks_keeps_utxos(w2, db.asset_lock_transactions, network);
    lemma_load_identities_keeps_utxos(w3, db.identities, network);
    lemma_load_utxos_holds_only_rows(w1, db.utxos, network, outpoint);
    assert(!w1.holds(outpoint));
}

/// The wallet read from the tables holds the unspent output of every row
/// of its network that pays an address of the wallet, as long as the
/// values of the rows together fit in 64 bits.
pub proof fn lemma_rows_are_loaded(db: DatabaseView, info: WalletInfoView, network: Network, i: int)
    requires
        0 <= i < db.utxos.len(),
        db.utxos[i].network == network,
        spec_wallet_from_rows(db, info, network).knows(db.utxos[i].utxo.address),
        rows_value(db.utxos) <= u64::MAX,
    ensures
        spec_wallet_from_rows(db, info, network).holds(db.utxos[i].utxo.outpoint),
{
    reveal(spec_wallet_from_rows);
    let w0 = spec_empty_wallet(info);
    let w1 = spec_load_addresses(w0, db.wallet_addresses, network);
    let w2 = spec_load_utxos(w1, db.utxos, network);
    let w3 = spec_load_asset_locks(w2, db.asset_lock_transactions, network);
    let w4 = spec_load_identities(w3, db.identities, network);
    lemma_load_addresses_keeps_utxos(w0, db.wallet_addresses, network);
    lemma_load_utxos_bounds(w1, db.utxos, network);
    lemma_load_asset_locks_keeps_utxos(w2, db.asset_lock_transactions, network);
    lemma_load_identities_keeps_utxos(w3, db.identities, network);
    let address = db.utxos[i].utxo.address;
    let j = choose|j: int|
        0 <= j < w4.known_addresses.len() && (#[trigger] w4.known_addresses[j]).address == address;
    assert(w1.known_addresses[j].address == address);
    lemma_load_utxos_takes_rows(w1, db.utxos, network, i, 0);
}

proof fn lemma_load_addresses_keeps_utxos(wallet: WalletView, rows: Seq<AddressRowView>, network: Network)
    requires
        forall|j: int|
            0 <= j < wallet.known_addresses.len() ==> (#[trigger] wallet.known_addresses[j]).balance
                == 0,
    ensures
        spec_load_addresses(wallet, rows, network).utxos == wallet.utxos,
        forall|j: int|
            0 <= j < spec_load_addresses(wallet, rows, network).known_addresses.len() ==> (
            #[trigger] spec_load_addresses(wallet, rows, network).known_addresses[j]).balance == 0,
    decreases rows.len(),
{
    if rows.len() > 0 {
        lemma_load_addresses_keeps_utxos(wallet, rows.drop_last(), network);
    }
}

proof fn lemma_load_asset_locks_keeps_utxos(wallet: WalletView, rows: Seq<AssetLockRowView>, network: Network)
    ensures
        spec_load_asset_locks(wallet, rows, network).utxos == wallet.utxos,
        spec_load_asset_locks(wallet, rows, network).known_addresses == wallet.known_addresses,
    decreases rows.len(),
{
    if rows.len() > 0 {
        lemma_load_asset_locks_keeps_utxos(wallet, rows.drop_last(), network);
    }
}

proof fn lemma_load_identities_keeps_utxos(wallet: WalletView, rows: Seq<IdentityRowView>, network: Network)
    ensures
        spec_load_identities(wallet, rows, network).utxos == wallet.utxos,
        spec_load_identities(wallet, rows, network).known_addresses == wallet.known_addresses,
    decreases rows.len(),
{
    if rows.len() > 0 {
        lemma_load_identities_keeps_utxos(wallet, rows.drop_last(), network);
    }
}

proof fn lemma_load_utxos_holds_only_rows(
    wallet: WalletView,
    rows: Seq<UtxoRowView>,
    network: Network,
    outpoint: OutPoint,
)
    requires
        spec_load_utxos(wallet, rows, network).holds(outpoint),
    ensures
        wallet.holds(outpoint) || has_utxo_row(rows, outpoint, network),
    decreases rows.len(),
{
    if rows.len() > 0 {
        let before = spec_load_utxos(wallet, rows.drop_last(), network);
        let after = spec_load_utxos(wallet, rows, network);
        let i = choose|i: int| 0 <= i < after.utxos.len() && #[trigger] after.utxos[i].outpoint == outpoint;
        if i < before.utxos.len() {
            assert(before.utxos[i] == after.utxos[i]);
            lemma_load_utxos_holds_only_rows(wallet, rows.drop_last(), network, outpoint);
            if !wallet.holds(outpoint) {
                let k = choose|k: int|
                    0 <= k < rows.drop_last().len() && (#[trigger] rows.drop_last()[k]).utxo.outpoint
                        == outpoint && rows.drop_last()[k].network == network;
                assert(rows[k] == rows.drop_last()[k]);
            }
        } else {
            assert(rows[rows.len() - 1].utxo.outpoint == outpoint);
        }
    }
}

proof fn lemma_load_utxos_bounds(wallet: WalletView, rows: Seq<UtxoRowView>, network: Network)
    ensures
        ({
            let after = spec_load_utxos(wallet, rows, network);
            &&& after.known_addresses.len() == wallet.known_addresses.len()
            &&& forall|j: int|
                0 <= j < wallet.known_addresses.len() ==> (#[trigger] after.known_addresses[j]).address
                    == wallet.known_addresses[j].address && after.known_addresses[j].balance
                    <= wallet.known_addresses[j].balance + rows_value(rows)
            &&& forall|outpoint: OutPoint|
                wallet.holds(outpoint) ==> #[trigger] after.holds(outpoint)
        }),
    decreases rows.len(),
{
    if rows.len() > 0 {
        lemma_load_utxos_bounds(wallet, rows.drop_last(), network);
        let before = spec_load_utxos(wallet, rows.drop_last(), network);
        let after = spec_load_utxos(wallet, rows, network);
        assert forall|outpoint: OutPoint| wallet.holds(outpoint) implies #[trigger] after.holds(
            outpoint,
        ) by {
            assert(before.holds(outpoint));
            let i = choose|i: int|
                0 <= i < before.utxos.len() && #[trigger] before.utxos[i].outpoint == outpoint;
            assert(after.utxos[i] == before.utxos[i]);
        }
    }
}

proof fn lemma_load_utxos_takes_rows(
    wallet: WalletView,
    rows: Seq<UtxoRowView>,
    network: Network,
    i: int,
    balance: nat,
)
    requires
        0 <= i < rows.len(),
        rows[i].network == network,
        wallet.knows(rows[i].utxo.address),
        forall|j: int|
            0 <= j < wallet.known_addresses.len() ==> (#[trigger] wallet.known_addresses[j]).balance
                <= balance,
        balance + rows_value(rows) <= u64::MAX,
    ensures
        spec_load_utxos(wallet, rows, network).holds(rows[i].utxo.outpoint),
    decreases rows.len(),
{
    let before = spec_load_utxos(wallet, rows.drop_last(), network);
    let after = spec_load_utxos(wallet, rows, network);
    let outpoint = rows[i].utxo.outpoint;
    lemma_load_utxos_bounds(wallet, rows.drop_last(), network);
    if i < rows.len() - 1 {
        assert(rows.drop_last()[i] == rows[i]);
        lemma_load_utxos_takes_rows(wallet, rows.drop_last(), network, i, balance);
        let k = choose|k: int|
            0 <= k < before.utxos.len() && #[trigger] before.utxos[k].outpoint == outpoint;
        assert(after.utxos[k] == before.utxos[k]);
    } else {
        let address = rows[i].utxo.address;
        let j = choose|j: int|
            0 <= j < wallet.known_addresses.len() && (#[trigger] wallet.known_addresses[j]).address
                == address;
        assert(before.known_addresses[j].address == address);
        assert(before.knows(address));
        assert(before.cached_balance(address) <= balance + rows_value(rows.drop_last()));
        if !before.holds(outpoint) {
            assert(after.utxos[before.utxos.len() as int].outpoint == outpoint);
        }
    }
}

/// The funding transaction that a row of the table stands for.
fn lock_of_row(row: &AssetLockRow) -> (lock: UnusedAssetLock)
    ensures
        lock@ == spec_row_lock(row@),
{
    let lock_proof = match &row.instant_lock {
        Some(instant_lock) => Some(
            AssetLockProof::Instant(
                InstantAssetLockProof {
                    instant_lock: instant_lock.clone(),
                    transaction: row.transaction.clone(),
                    txid: row.txid,
                    output_index: FUNDING_OUTPUT_INDEX,
                },
            ),
        ),
        None => match row.chain_locked_height {
            Some(height) => Some(
                AssetLockProof::Chain(
                    ChainAssetLockProof {
                        core_chain_locked_height: height,
                        out_point: OutPoint { txid: row.txid, vout: FUNDING_OUTPUT_INDEX },
                    },
                ),
            ),
            None => None,
        },
    };
    UnusedAssetLock {
        txid: row.txid,
        transaction: row.transaction.clone(),
        address: row.address,
        amount: row.amount,
        instant_lock: clone_bytes_option(&row.instant_lock),
        lock_proof,
    }
}

impl Database {
    /// The wallet that the tables hold for a row of the table of wallets.
    fn load_wallet(&self, info: &WalletInfo, network: &Network) -> (wallet: Wallet)
        ensures
            wallet.wf(),
            wallet@ == spec_wallet_from_rows(self@, info@, *network),
    {
        let ghost db = self@;
        let mut wallet = Wallet::new(info.clone());
        let seed_hash = wallet.seed_hash();
        let mut i: usize = 0;
        while i < self.wallet_addresses.len()
            invariant
                i <= self.wallet_addresses.len(),
                db == self@,
                wallet.wf(),
                seed_hash == wallet@.seed_hash(),
                wallet@ == spec_load_addresses(
                    spec_empty_wallet(info@),
                    db.wallet_addresses.take(i as int),
                    *network,
                ),
            decreases self.wallet_addresses.len() - i,
        {
            proof {
                assert(db.wallet_addresses.take(i + 1).drop_last() =~= db.wallet_addresses.take(
                    i as int,
                ));
                assert(db.wallet_addresses.take(i + 1).last() == db.wallet_addresses[i as int]);
                lemma_load_addresses_keeps_info(
                    spec_empty_wallet(info@),
                    db.wallet_addresses.take(i + 1),
                    *network,
                );
            }
            let row = &self.wallet_addresses[i];
            if bytes_eq(&row.seed_hash, &seed_hash) {
                match check_address_for_network(row.address, network) {
                    Ok(address) => match DerivationPathReference::from_code(row.path_reference) {
                        Some(path_reference) => {
                            wallet.register_address(
                                KnownAddress {
                                    address,
                                    derivation_path: row.derivation_path.clone(),
                                    path_reference,
                                    path_type: DerivationPathType::from_bits_truncate(
                                        row.path_type,
                                    ),
                                },
                            );
                        },
                        None => {},
                    },
                    Err(_) => {},
                }
            }
            i = i + 1;
        }
        assert(db.wallet_addresses.take(i as int) =~= db.wallet_addresses);
        let ghost with_addresses = wallet@;
        let mut i: usize = 0;
        while i < self.utxos.len()
            invariant
                i <= self.utxos.len(),
                db == self@,
                wallet.wf(),
                wallet@ == spec_load_utxos(with_addresses, db.utxos.take(i as int), *network),
            decreases self.utxos.len() - i,
        {
            proof {
                assert(db.utxos.take(i + 1).drop_last() =~= db.utxos.take(i as int));
                assert(db.utxos.take(i + 1).last() == db.utxos[i as int]);
            }
            let row = &self.utxos[i];
            if row.network == *network {
                let _ = wallet.add_utxo(row.utxo.address, row.utxo.outpoint, row.utxo.output.clone());
            }
            i = i + 1;
        }
        assert(db.utxos.take(i as int) =~= db.utxos);
        proof {
            lemma_load_utxos_keeps_info(with_addresses, db.utxos, *network);
        }
        let ghost with_utxos = wallet@;
        let mut i: usize = 0;
        while i < self.asset_lock_transactions.len()
            invariant
                i <= self.asset_lock_transactions.len(),
                db == self@,
                wallet.wf(),
                seed_hash == with_utxos.seed_hash(),
                wallet@ == spec_load_asset_locks(
                    with_utxos,
                    db.asset_lock_transactions.take(i as int),
                    *network,
                ),
            decreases self.asset_lock_transactions.len() - i,
        {
            proof {
                assert(db.asset_lock_transactions.take(i + 1).drop_last()
                    =~= db.asset_lock_transactions.take(i as int));
                assert(db.asset_lock_transactions.take(i + 1).last()
                    == db.asset_lock_transactions[i as int]);
                lemma_load_asset_locks_keeps_info(
                    with_utxos,
                    db.asset_lock_transactions.take(i as int),
                    *network,
                );
            }
            let row = &self.asset_lock_transactions[i];
            if row.network == *network && row.identity_id.is_none() && bytes_eq(
                &row.wallet,
                &seed_hash,
            ) {
                wallet.add_unused_asset_lock(lock_of_row(row));
            }
            i = i + 1;
        }
        assert(db.asset_lock_transactions.take(i as int) =~= db.asset_lock_transactions);
        proof {
            lemma_load_asset_locks_keeps_info(with_utxos, db.asset_lock_transactions, *network);
        }
        let ghost with_locks = wallet@;
        let mut i: usize = 0;
        while i < self.identities.len()
            invariant
                i <= self.identities.len(),
                db == self@,
                wallet.wf(),
                seed_hash == with_locks.seed_hash(),
                wallet@ == spec_load_identities(with_locks, db.identities.take(i as int), *network),
            decreases self.identities.len() - i,
        {
            proof {
                assert(db.identities.take(i + 1).drop_last() =~= db.identities.take(i as int));
                assert(db.identities.take(i + 1).last() == db.identities[i as int]);
                lemma_load_identities_keeps_info(
                    with_locks,
                    db.identities.take(i as int),
                    *network,
                );
            }
            let row = &self.identities[i];
            if row.network == *network {
                match (row.wallet, row.wallet_index) {
                    (Some(wallet_seed_hash), Some(wallet_index)) => {
                        if bytes_eq(&wallet_seed_hash, &seed_hash) {
                            wallet.insert_identity(wallet_index, row.identity.identity);
                        }
                    },
                    _ => {},
                }
            }
            i = i + 1;
        }
        assert(db.identities.take(i as int) =~= db.identities);
        proof {
            reveal(spec_wallet_from_rows);
        }
        wallet
    }
}


/// Every wallet of the list is well formed.
pub open spec fn all_wallets_wf(wallets: Seq<Wallet>) -> bool {
    forall|i: int| 0 <= i < wallets.len() ==> (#[trigger] wallets[i]).wf()
}

/// Puts a wallet in its place in a list that is in the order of the seed
/// hashes.
fn insert_by_seed_hash(wallets: &mut Vec<Wallet>, wallet: Wallet) -> (place: usize)
    requires
        all_wallets_wf(old(wallets)@),
        wallet.wf(),
        sorted_by_seed_hash(wallet_views(old(wallets)@)),
        !has_seed_hash(wallet_views(old(wallets)@), wallet@.seed_hash()),
    ensures
        all_wallets_wf(final(wallets)@),
        sorted_by_seed_hash(wallet_views(final(wallets)@)),
        place <= old(wallets)@.len(),
        wallet_views(final(wallets)@) == wallet_views(old(wallets)@).insert(place as int, wallet@),
{
    let ghost before = wallet_views(wallets@);
    let ghost added = wallet@;
    let seed_hash = wallet.seed_hash();
    let mut place: usize = 0;
    while place < wallets.len() && hash_before(&wallets[place].seed_hash(), &seed_hash)
        invariant
            place <= wallets.len(),
            before == wallet_views(wallets@),
            forall|k: int|
                0 <= k < place ==> bytes_before((#[trigger] before[k]).seed_hash()@, seed_hash@),
        decreases wallets.len() - place,
    {
        place = place + 1;
    }
    wallets.insert(place, wallet);
    proof {
        let after = wallet_views(wallets@);
        assert(after =~= before.insert(place as int, added));
        assert forall|i: int| 0 <= i < wallets@.len() implies (#[trigger] wallets@[i]).wf() by {
            if i < place {
                assert(wallets@[i] == old(wallets)@[i]);
            } else if i > place {
                assert(wallets@[i] == old(wallets)@[i - 1]);
            }
        }
        assert forall|i: int, j: int| 0 <= i < j < after.len() implies bytes_before(
            (#[trigger] after[i]).seed_hash()@,
            (#[trigger] after[j]).seed_hash()@,
        ) by {
            if j == place {
                assert(after[i] == before[i]);
            } else if i == place {
                assert(after[j] == before[j - 1]);
                assert(before[place as int].seed_hash() != seed_hash);
                lemma_bytes_before_total(before[place as int].seed_hash(), seed_hash);
                if j - 1 > place {
                    lemma_bytes_before_transitive(
                        seed_hash@,
                        before[place as int].seed_hash()@,
                        before[j - 1].seed_hash()@,
                    );
                }
            } else {
                let i0 = if i < place {
                    i
                } else {
                    i - 1
                };
                let j0 = if j < place {
                    j
                } else {
                    j - 1
                };
                assert(after[i] == before[i0] && after[j] == before[j0]);
            }
        }
    }
    place
}

/// A row of another network adds no wallet.
proof fn lemma_rows_skip(
    wallets: Seq<WalletView>,
    db: DatabaseView,
    all: Seq<WalletRowView>,
    r: int,
    network: Network,
)
    requires
        0 <= r < all.len(),
        all[r].network != network,
        wallets_of_rows(wallets, db, all.take(r), network),
    ensures
        wallets_of_rows(wallets, db, all.take(r + 1), network),
{
    let rows = all.take(r);
    let more = all.take(r + 1);
    assert forall|i: int| 0 <= i < wallets.len() implies is_wallet_of_row(
        #[trigger] wallets[i],
        db,
        more,
        network,
    ) by {
        assert(is_wallet_of_row(wallets[i], db, rows, network));
        let w = choose|w: int|
            0 <= w < rows.len() && (#[trigger] rows[w]).network == network && wallets[i]
                == spec_wallet_from_rows(db, rows[w].info, network);
        assert(more[w] == rows[w]);
    }
    assert forall|q: int|
        0 <= q < more.len() && (#[trigger] more[q]).network == network implies has_seed_hash(
        wallets,
        more[q].info.wallet_seed.seed_hash(),
    ) by {
        assert(more[r] == all[r]);
        assert(rows[q] == more[q]);
    }
}

/// A row of the network adds its wallet, wherever the wallet is put.
proof fn lemma_rows_insert(
    before: Seq<WalletView>,
    db: DatabaseView,
    all: Seq<WalletRowView>,
    r: int,
    network: Network,
    place: int,
    added: WalletView,
)
    requires
        0 <= r < all.len(),
        0 <= place <= before.len(),
        all[r].network == network,
        added == spec_wallet_from_rows(db, all[r].info, network),
        added.seed_hash() == all[r].info.wallet_seed.seed_hash(),
        wallets_of_rows(before, db, all.take(r), network),
    ensures
        wallets_of_rows(before.insert(place, added), db, all.take(r + 1), network),
{
    let rows = all.take(r);
    let more = all.take(r + 1);
    let after = before.insert(place, added);
    assert forall|i: int| 0 <= i < after.len() implies is_wallet_of_row(
        #[trigger] after[i],
        db,
        more,
        network,
    ) by {
        if i == place {
            assert(more[r] == all[r]);
        } else {
            let i0 = if i < place {
                i
            } else {
                i - 1
            };
            assert(after[i] == before[i0]);
            assert(is_wallet_of_row(before[i0], db, rows, network));
            let w = choose|w: int|
                0 <= w < rows.len() && (#[trigger] rows[w]).network == network && before[i0]
                    == spec_wallet_from_rows(db, rows[w].info, network);
            assert(more[w] == rows[w]);
        }
    }
    assert forall|q: int|
        0 <= q < more.len() && (#[trigger] more[q]).network == network implies has_seed_hash(
        after,
        more[q].info.wallet_seed.seed_hash(),
    ) by {
        if q == r {
            assert(more[r] == all[r]);
            assert(after[place] == added);
        } else {
            assert(rows[q] == more[q]);
            assert(has_seed_hash(before, rows[q].info.wallet_seed.seed_hash()));
            let i0 = choose|i0: int|
                0 <= i0 < before.len() && (#[trigger] before[i0]).seed_hash()
                    == rows[q].info.wallet_seed.seed_hash();
            let i = if i0 < place {
                i0
            } else {
                i0 + 1
            };
            assert(after[i] == before[i0]);
        }
    }
}

/// The wallet of a row is not among the wallets of the rows before it.
proof fn lemma_row_is_fresh(
    before: Seq<WalletView>,
    db: DatabaseView,
    r: int,
    network: Network,
)
    requires
        db.wf(),
        0 <= r < db.wallets.len(),
        wallets_of_rows(before, db, db.wallets.take(r), network),
    ensures
        !has_seed_hash(before, db.wallets[r].info.wallet_seed.seed_hash()),
{
    let rows = db.wallets.take(r);
    let seed_hash = db.wallets[r].info.wallet_seed.seed_hash();
    if has_seed_hash(before, seed_hash) {
        let i = choose|i: int|
            0 <= i < before.len() && (#[trigger] before[i]).seed_hash() == seed_hash;
        assert(is_wallet_of_row(before[i], db, rows, network));
        let w = choose|w: int|
            0 <= w < rows.len() && (#[trigger] rows[w]).network == network && before[i]
                == spec_wallet_from_rows(db, rows[w].info, network);
        lemma_loaded_wallet_keeps_info(db, rows[w].info, network);
        assert(db.wallets[w] == rows[w]);
        assert(db.wallets[w].info.wallet_seed.seed_hash()
            != db.wallets[r].info.wallet_seed.seed_hash());
    }
}

impl Database {
    /// Retrieve all wallets for a specific network, including their
    /// addresses, their unspent outputs, their unused funding transactions
    /// and their identities. The wallets come in the order of their seed
    /// hashes.
    pub fn get_wallets(&self, network: &Network) -> (result: Result<Vec<Wallet>, DatabaseError>)
        requires
            self@.wf(),
        ensures
            result is Ok,
            result matches Ok(wallets) ==> {
                &&& all_wallets_wf(wallets@)
                &&& sorted_by_seed_hash(wallet_views(wallets@))
                &&& wallets_of_rows(wallet_views(wallets@), self@, self@.wallets, *network)
            },
    {
        let ghost db = self@;
        let mut wallets: Vec<Wallet> = Vec::new();
        let mut r: usize = 0;
        while r < self.wallets.len()
            invariant
                r <= self.wallets.len(),
                db == self@,
                db.wf(),
                all_wallets_wf(wallets@),
                sorted_by_seed_hash(wallet_views(wallets@)),
                wallets_of_rows(wallet_views(wallets@), db, db.wallets.take(r as int), *network),
            decreases self.wallets.len() - r,
        {
            let ghost before = wallet_views(wallets@);
            if self.wallets[r].network == *network {
                let wallet = self.load_wallet(&self.wallets[r].info, network);
                let ghost added = wallet@;
                proof {
                    lemma_loaded_wallet_keeps_info(db, db.wallets[r as int].info, *network);
                    lemma_row_is_fresh(before, db, r as int, *network);
                }
                let place = insert_by_seed_hash(&mut wallets, wallet);
                proof {
                    lemma_rows_insert(before, db, db.wallets, r as int, *network, place as int, added);
                }
            } else {
                proof {
                    lemma_rows_skip(before, db, db.wallets, r as int, *network);
                }
            }
            r = r + 1;
        }
        assert(db.wallets.take(r as int) =~= db.wallets);
        Ok(wallets)
    }
}


/// The rows of unspent outputs after the outputs of `fresh` were written
/// for `network` in order, each unless the table held its outpoint already.
pub open spec fn spec_store_utxos(rows: Seq<UtxoRowView>, fresh: Seq<UtxoView>, network: Network) -> Seq<
    UtxoRowView,
>
    decreases fresh.len(),
{
    if fresh.len() == 0 {
        rows
    } else {
        let before = spec_store_utxos(rows, fresh.drop_last(), network);
        if has_utxo_row(before, fresh.last().outpoint, network) {
            before
        } else {
            before.push(UtxoRowView { utxo: fresh.last(), network })
        }
    }
}

impl Database {
    /// Writes the unspent outputs of `fresh` for `network`, each unless the
    /// table holds its outpoint already.
    pub fn store_utxos(&mut self, fresh: &Vec<Utxo>, network: &Network)
        requires
            old(self)@.wf(),
        ensures
            final(self)@.wf(),
            final(self)@ == (DatabaseView {
                utxos: spec_store_utxos(old(self)@.utxos, views(fresh@), *network),
                ..old(self)@
            }),
    {
        let ghost offered = views(fresh@);
        let ghost before = self@;
        let mut i: usize = 0;
        while i < fresh.len()
            invariant
                i <= fresh.len(),
                self@.wf(),
                offered == views(fresh@),
                self@ == (DatabaseView {
                    utxos: spec_store_utxos(before.utxos, offered.take(i as int), *network),
                    ..before
                }),
            decreases fresh.len() - i,
        {
            proof {
                assert(offered.take(i + 1).drop_last() =~= offered.take(i as int));
                assert(offered.take(i + 1).last() == offered[i as int]);
            }
            let _ = self.insert_utxo(&fresh[i], network);
            i = i + 1;
        }
        assert(offered.take(i as int) =~= offered);
    }
}


impl Database {
    /// The rows of the table of wallets.
    pub fn wallet_rows(&self) -> (rows: &Vec<WalletRow>)
        ensures
            views(rows@) == self@.wallets,
    {
        &self.wallets
    }

    /// The rows of the table of addresses.
    pub fn address_rows(&self) -> (rows: &Vec<AddressRow>)
        ensures
            views(rows@) == self@.wallet_addresses,
    {
        &self.wallet_addresses
    }

    /// The rows of the table of unspent outputs.
    pub fn utxo_rows(&self) -> (rows: &Vec<UtxoRow>)
        ensures
            views(rows@) == self@.utxos,
    {
        &self.utxos
    }

    /// The rows of the table of funding transactions.
    pub fn asset_lock_rows(&self) -> (rows: &Vec<AssetLockRow>)
        ensures
            views(rows@) == self@.asset_lock_transactions,
    {
        &self.asset_lock_transactions
    }

    /// The rows of the table of identities.
    pub fn identity_rows(&self) -> (rows: &Vec<IdentityRow>)
        ensures
            views(rows@) == self@.identities,
    {
        &self.identities
    }
}

} // verus!
