//! A wallet's unspent outputs, its address registry and the balance it keeps
//! for each address.

use crate::asset_lock_proof::{
    clone_proof_option, proof_option_view, AssetLockProof, AssetLockProofView,
};
use crate::chain::{
    bytes_eq, contains_outpoint, Address, OutPoint, TxOut, TxOutView, Txid, WalletSeedHash,
};
use crate::derivation::{DerivationPath, DerivationPathReference, DerivationPathType};
use crate::identity::Identity;
use crate::views::{
    bytes_option_view, clone_bytes_option, clone_text_option, text_option_view, views,
};
use crate::wallet_seed::{WalletSeed, WalletSeedView};
use std::collections::HashMap;
use vstd::prelude::*;

verus! {

/// An unspent output that the wallet owns.
#[derive(Debug, PartialEq, Eq)]
pub struct Utxo {
    pub outpoint: OutPoint,
    pub address: Address,
    pub output: TxOut,
}

/// The mathematical content of an unspent output in a wallet, with the mark
/// that says whether a transaction under construction has claimed it.
pub struct UtxoView {
    pub outpoint: OutPoint,
    pub address: Address,
    pub value: u64,
    pub script_pubkey: Seq<u8>,
    pub reserved: bool,
}

impl View for Utxo {
    type V = UtxoView;

    open spec fn view(&self) -> UtxoView {
        UtxoView {
            outpoint: self.outpoint,
            address: self.address,
            value: self.output.value,
            script_pubkey: self.output.script_pubkey@,
            reserved: false,
        }
    }
}

impl Clone for Utxo {
    fn clone(&self) -> (copy: Utxo)
        ensures
            copy@ == self@,
    {
        Utxo { outpoint: self.outpoint, address: self.address, output: self.output.clone() }
    }
}

/// Why the store of unspent outputs refused a change.
#[derive(Clone, Copy, Debug, PartialEq, Eq, Structural)]
pub enum UtxoError {
    /// The output pays an address that the wallet has not registered.
    UnknownAddress,
    /// The wallet already holds an output with this outpoint.
    DuplicateOutpoint,
    /// The balance of the address would no longer fit in 64 bits.
    BalanceOverflow,
    /// The wallet holds no output with this outpoint.
    UnknownOutpoint,
    /// A transaction under construction has already claimed the output.
    AlreadyReserved,
}

/// The sum of the values of the outputs in `utxos` that pay `address`.
pub open spec fn balance_of_utxos(utxos: Seq<UtxoView>, address: Address) -> nat
    decreases utxos.len(),
{
    if utxos.len() == 0 {
        0
    } else {
        balance_of_utxos(utxos.drop_last(), address) + if utxos.last().address == address {
            utxos.last().value as nat
        } else {
            0
        }
    }
}

/// Tells whether some output in `utxos` has the outpoint `outpoint`.
pub open spec fn holds_outpoint(utxos: Seq<UtxoView>, outpoint: OutPoint) -> bool {
    exists|i: int| 0 <= i < utxos.len() && #[trigger] utxos[i].outpoint == outpoint
}

/// `utxos` without the outputs whose outpoint is in `spent`, in the same order.
pub open spec fn without_spent(utxos: Seq<UtxoView>, spent: Seq<OutPoint>) -> Seq<UtxoView>
    decreases utxos.len(),
{
    if utxos.len() == 0 {
        utxos
    } else if spent.contains(utxos.last().outpoint) {
        without_spent(utxos.drop_last(), spent)
    } else {
        without_spent(utxos.drop_last(), spent).push(utxos.last())
    }
}

/// Adding an output at the end adds its value to the balance of its address
/// and to no other.
pub proof fn lemma_balance_push(utxos: Seq<UtxoView>, utxo: UtxoView, address: Address)
    ensures
        balance_of_utxos(utxos.push(utxo), address) == balance_of_utxos(utxos, address) + (
        if utxo.address == address {
            utxo.value as nat
        } else {
            0
        }),
{
    assert(utxos.push(utxo).drop_last() =~= utxos);
}

/// The balance of a prefix is at most the balance of the whole list.
pub proof fn lemma_balance_prefix(utxos: Seq<UtxoView>, n: int, address: Address)
    requires
        0 <= n <= utxos.len(),
    ensures
        balance_of_utxos(utxos.take(n), address) <= balance_of_utxos(utxos, address),
    decreases utxos.len(),
{
    if n == utxos.len() {
        assert(utxos.take(n) =~= utxos);
    } else {
        lemma_balance_prefix(utxos.drop_last(), n, address);
        assert(utxos.drop_last().take(n) =~= utxos.take(n));
    }
}

/// An address that no output pays has balance zero.
pub proof fn lemma_balance_zero(utxos: Seq<UtxoView>, address: Address)
    requires
        forall|i: int| 0 <= i < utxos.len() ==> (#[trigger] utxos[i]).address != address,
    ensures
        balance_of_utxos(utxos, address) == 0,
    decreases utxos.len(),
{
    if utxos.len() > 0 {
        lemma_balance_zero(utxos.drop_last(), address);
    }
}

/// Marks on outputs do not change a balance.
pub proof fn lemma_balance_ignores_marks(a: Seq<UtxoView>, b: Seq<UtxoView>, address: Address)
    requires
        a.len() == b.len(),
        forall|i: int|
            0 <= i < a.len() ==> (#[trigger] a[i]).address == b[i].address && a[i].value
                == b[i].value,
    ensures
        balance_of_utxos(a, address) == balance_of_utxos(b, address),
    decreases a.len(),
{
    if a.len() > 0 {
        lemma_balance_ignores_marks(a.drop_last(), b.drop_last(), address);
    }
}

/// What is left after spending holds only outputs of the list it began with, each
/// once, none of them spent; and it holds every output that was not spent.
pub proof fn lemma_without_spent(utxos: Seq<UtxoView>, spent: Seq<OutPoint>)
    ensures
        without_spent(utxos, spent).len() <= utxos.len(),
        forall|k: int|
            0 <= k < without_spent(utxos, spent).len() ==> {
                &&& !spent.contains((#[trigger] without_spent(utxos, spent)[k]).outpoint)
                &&& utxos.contains(without_spent(utxos, spent)[k])
            },
        forall|i: int|
            0 <= i < utxos.len() && !spent.contains((#[trigger] utxos[i]).outpoint)
                ==> without_spent(utxos, spent).contains(utxos[i]),
        forall|address: Address|
            #[trigger] balance_of_utxos(without_spent(utxos, spent), address) <= balance_of_utxos(
                utxos,
                address,
            ),
        (forall|i: int, j: int|
            0 <= i < j < utxos.len() ==> (#[trigger] utxos[i]).outpoint != (
            #[trigger] utxos[j]).outpoint) ==> (forall|i: int, j: int|
            0 <= i < j < without_spent(utxos, spent).len() ==> (#[trigger] without_spent(
                utxos,
                spent,
            )[i]).outpoint != (#[trigger] without_spent(utxos, spent)[j]).outpoint),
    decreases utxos.len(),
{
    if utxos.len() > 0 {
        let rest = utxos.drop_last();
        let last = utxos.last();
        lemma_without_spent(rest, spent);
        let kept = without_spent(rest, spent);
        let result = without_spent(utxos, spent);
        assert forall|k: int| 0 <= k < result.len() implies {
            &&& !spent.contains((#[trigger] result[k]).outpoint)
            &&& utxos.contains(result[k])
        } by {
            if k < kept.len() {
                assert(result[k] == kept[k]);
                let w = choose|w: int| 0 <= w < rest.len() && rest[w] == kept[k];
                assert(utxos[w] == kept[k]);
            } else {
                assert(result[k] == last);
                assert(utxos[utxos.len() - 1] == last);
            }
        }
        assert forall|i: int|
            0 <= i < utxos.len() && !spent.contains((#[trigger] utxos[i]).outpoint) implies result.contains(
            utxos[i],
        ) by {
            if i < rest.len() {
                assert(rest[i] == utxos[i]);
                let w = choose|w: int| 0 <= w < kept.len() && kept[w] == rest[i];
                assert(result[w] == utxos[i]);
            } else {
                assert(result[result.len() - 1] == utxos[i]);
            }
        }
        assert forall|address: Address|
            #[trigger] balance_of_utxos(result, address) <= balance_of_utxos(
                utxos,
                address,
            ) by {
            if !spent.contains(last.outpoint) {
                lemma_balance_push(kept, last, address);
            }
        }
        if forall|i: int, j: int|
            0 <= i < j < utxos.len() ==> (#[trigger] utxos[i]).outpoint != (
            #[trigger] utxos[j]).outpoint {
            assert forall|i: int, j: int| 0 <= i < j < rest.len() implies (
            #[trigger] rest[i]).outpoint != (#[trigger] rest[j]).outpoint by {
                assert(rest[i] == utxos[i] && rest[j] == utxos[j]);
            }
            assert forall|i: int, j: int| 0 <= i < j < result.len() implies (
            #[trigger] result[i]).outpoint != (#[trigger] result[j]).outpoint by {
                if j == kept.len() {
                    let w = choose|w: int| 0 <= w < rest.len() && rest[w] == kept[i];
                    assert(utxos[w].outpoint != utxos[utxos.len() - 1].outpoint);
                }
            }
        }
    }
}


/// An address that the wallet derived, with the path it was derived on.
#[derive(Debug, PartialEq, Eq)]
pub struct KnownAddress {
    pub address: Address,
    pub derivation_path: DerivationPath,
    pub path_reference: DerivationPathReference,
    pub path_type: DerivationPathType,
}

/// The content of an entry of the address registry, with the balance that the
/// wallet keeps for the address.
pub struct KnownAddressView {
    pub address: Address,
    pub derivation_path: Seq<u32>,
    pub path_reference: DerivationPathReference,
    pub path_type: DerivationPathType,
    pub balance: u64,
}

impl Clone for KnownAddress {
    fn clone(&self) -> (copy: KnownAddress)
        ensures
            copy.address == self.address,
            copy.derivation_path@ == self.derivation_path@,
            copy.path_reference == self.path_reference,
            copy.path_type == self.path_type,
    {
        KnownAddress {
            address: self.address,
            derivation_path: self.derivation_path.clone(),
            path_reference: self.path_reference,
            path_type: self.path_type,
        }
    }
}


/// A funding transaction of the wallet that no identity has used yet.
#[derive(Debug, PartialEq, Eq)]
pub struct UnusedAssetLock {
    pub txid: Txid,
    /// The transaction, serialized.
    pub transaction: Vec<u8>,
    /// The address that the credit output pays.
    pub address: Address,
    /// The value of the credit output.
    pub amount: u64,
    /// The instant lock on the transaction, once there is one.
    pub instant_lock: Option<Vec<u8>>,
    /// The proof that the transaction is final, once there is one.
    pub lock_proof: Option<AssetLockProof>,
}

pub struct UnusedAssetLockView {
    pub txid: Txid,
    pub transaction: Seq<u8>,
    pub address: Address,
    pub amount: u64,
    pub instant_lock: Option<Seq<u8>>,
    pub lock_proof: Option<AssetLockProofView>,
}

impl View for UnusedAssetLock {
    type V = UnusedAssetLockView;

    open spec fn view(&self) -> UnusedAssetLockView {
        UnusedAssetLockView {
            txid: self.txid,
            transaction: self.transaction@,
            address: self.address,
            amount: self.amount,
            instant_lock: bytes_option_view(self.instant_lock),
            lock_proof: proof_option_view(self.lock_proof),
        }
    }
}

impl Clone for UnusedAssetLock {
    fn clone(&self) -> (copy: UnusedAssetLock)
        ensures
            copy@ == self@,
    {
        UnusedAssetLock {
            txid: self.txid,
            transaction: self.transaction.clone(),
            address: self.address,
            amount: self.amount,
            instant_lock: clone_bytes_option(&self.instant_lock),
            lock_proof: clone_proof_option(&self.lock_proof),
        }
    }
}

/// The views of a list of funding transactions.
pub open spec fn asset_lock_views(locks: Seq<UnusedAssetLock>) -> Seq<UnusedAssetLockView> {
    Seq::new(locks.len(), |k: int| locks[k]@)
}

/// `locks` without the transactions with the id `txid`, in the same order.
pub open spec fn without_lock(locks: Seq<UnusedAssetLockView>, txid: Txid) -> Seq<
    UnusedAssetLockView,
>
    decreases locks.len(),
{
    if locks.len() == 0 {
        locks
    } else if locks.last().txid == txid {
        without_lock(locks.drop_last(), txid)
    } else {
        without_lock(locks.drop_last(), txid).push(locks.last())
    }
}

/// What a wallet is and how it is shown, apart from what it holds.
#[derive(Debug, PartialEq, Eq)]
pub struct WalletInfo {
    pub wallet_seed: WalletSeed,
    pub uses_password: bool,
    /// The master extended public key of the first BIP44 account, encoded.
    pub master_bip44_ecdsa_extended_public_key: Vec<u8>,
    pub alias: Option<String>,
    pub is_main: bool,
}

pub struct WalletInfoView {
    pub wallet_seed: WalletSeedView,
    pub uses_password: bool,
    pub master_bip44_ecdsa_extended_public_key: Seq<u8>,
    pub alias: Option<Seq<char>>,
    pub is_main: bool,
}

impl View for WalletInfo {
    type V = WalletInfoView;

    open spec fn view(&self) -> WalletInfoView {
        WalletInfoView {
            wallet_seed: self.wallet_seed@,
            uses_password: self.uses_password,
            master_bip44_ecdsa_extended_public_key: self.master_bip44_ecdsa_extended_public_key@,
            alias: text_option_view(self.alias),
            is_main: self.is_main,
        }
    }
}

impl Clone for WalletInfo {
    fn clone(&self) -> (copy: WalletInfo)
        ensures
            copy@ == self@,
    {
        WalletInfo {
            wallet_seed: self.wallet_seed.clone(),
            uses_password: self.uses_password,
            master_bip44_ecdsa_extended_public_key: self.master_bip44_ecdsa_extended_public_key.clone(),
            alias: clone_text_option(&self.alias),
            is_main: self.is_main,
        }
    }
}

/// A wallet: its address registry, its unspent outputs, the balance it
/// keeps for each registered address, the funding transactions that no
/// identity has used yet, and the identities it has funded.
pub struct Wallet {
    info: WalletInfo,
    known: Vec<KnownAddress>,
    balances: Vec<u64>,
    utxos: Vec<Utxo>,
    reserved: Vec<bool>,
    unused_asset_locks: Vec<UnusedAssetLock>,
    identities: HashMap<u32, Identity>,
}

/// The mathematical content of a [`Wallet`].
pub struct WalletView {
    pub info: WalletInfoView,
    /// The registered addresses, in the order of their registration.
    pub known_addresses: Seq<KnownAddressView>,
    /// The unspent outputs, in the order in which they were added.
    pub utxos: Seq<UtxoView>,
    /// The funding transactions that no identity has used yet.
    pub unused_asset_locks: Seq<UnusedAssetLockView>,
    /// The identities that the wallet has funded, by their index.
    pub identities: Map<u32, Identity>,
}

impl WalletView {
    /// The hash that identifies the wallet.
    pub open spec fn seed_hash(self) -> WalletSeedHash {
        self.info.wallet_seed.seed_hash()
    }

    /// The wallet has registered `address`.
    pub open spec fn knows(self, address: Address) -> bool {
        exists|j: int|
            0 <= j < self.known_addresses.len() && (#[trigger] self.known_addresses[j]).address
                == address
    }

    /// The index of unspent outputs has an entry for `address`: some unspent
    /// output pays it.
    pub open spec fn indexes(self, address: Address) -> bool {
        exists|i: int| 0 <= i < self.utxos.len() && (#[trigger] self.utxos[i]).address == address
    }

    /// The wallet holds an unspent output with this outpoint.
    pub open spec fn holds(self, outpoint: OutPoint) -> bool {
        holds_outpoint(self.utxos, outpoint)
    }

    /// The unspent output with this outpoint.
    pub open spec fn utxo_with(self, outpoint: OutPoint) -> UtxoView {
        self.utxos[choose|i: int|
            0 <= i < self.utxos.len() && (#[trigger] self.utxos[i]).outpoint == outpoint]
    }

    /// The balance that the wallet keeps for `address`: that of its registry
    /// entry, and zero for an address it has not registered.
    pub open spec fn cached_balance(self, address: Address) -> nat {
        if self.knows(address) {
            let j = choose|j: int|
                0 <= j < self.known_addresses.len() && (
                #[trigger] self.known_addresses[j]).address == address;
            self.known_addresses[j].balance as nat
        } else {
            0
        }
    }

    /// No outpoint and no address occurs twice, every unspent output pays a
    /// registered address, and the balance kept for each address is the sum
    /// of the values of the unspent outputs that pay it.
    pub open spec fn wf(self) -> bool {
        &&& forall|i: int, j: int|
            0 <= i < j < self.utxos.len() ==> (#[trigger] self.utxos[i]).outpoint != (
            #[trigger] self.utxos[j]).outpoint
        &&& forall|i: int, j: int|
            0 <= i < j < self.known_addresses.len() ==> (
            #[trigger] self.known_addresses[i]).address != (
            #[trigger] self.known_addresses[j]).address
        &&& forall|i: int|
            0 <= i < self.utxos.len() ==> self.knows((#[trigger] self.utxos[i]).address)
        &&& forall|j: int|
            0 <= j < self.known_addresses.len() ==> (
            #[trigger] self.known_addresses[j]).balance == balance_of_utxos(
                self.utxos,
                self.known_addresses[j].address,
            )
    }
}

/// For every wallet and every address, the balance kept for the address is
/// the sum of the values of the wallet's unspent outputs that pay it.
pub proof fn lemma_cached_balance_is_sum(wallet: WalletView, address: Address)
    requires
        wallet.wf(),
    ensures
        wallet.cached_balance(address) == balance_of_utxos(wallet.utxos, address),
{
    if !wallet.knows(address) {
        assert forall|i: int| 0 <= i < wallet.utxos.len() implies (
        #[trigger] wallet.utxos[i]).address != address by {
            assert(wallet.knows(wallet.utxos[i].address));
        }
        lemma_balance_zero(wallet.utxos, address);
    }
}

/// The registry entries that a list of addresses and the list of their
/// balances stand for.
pub open spec fn registry_view(known: Seq<KnownAddress>, balances: Seq<u64>) -> Seq<
    KnownAddressView,
> {
    Seq::new(
        known.len(),
        |j: int|
            KnownAddressView {
                address: known[j].address,
                derivation_path: known[j].derivation_path@,
                path_reference: known[j].path_reference,
                path_type: known[j].path_type,
                balance: balances[j],
            },
    )
}

/// The unspent outputs that a list of outputs and the list of their marks
/// stand for.
pub open spec fn utxo_list_view(utxos: Seq<Utxo>, reserved: Seq<bool>) -> Seq<UtxoView> {
    Seq::new(
        utxos.len(),
        |i: int|
            UtxoView {
                outpoint: utxos[i].outpoint,
                address: utxos[i].address,
                value: utxos[i].output.value,
                script_pubkey: utxos[i].output.script_pubkey@,
                reserved: reserved[i],
            },
    )
}

impl Wallet {
    pub closed spec fn view(&self) -> WalletView {
        WalletView {
            info: self.info@,
            known_addresses: registry_view(self.known@, self.balances@),
            utxos: utxo_list_view(self.utxos@, self.reserved@),
            unused_asset_locks: asset_lock_views(self.unused_asset_locks@),
            identities: self.identities@,
        }
    }

    /// The two lists that run beside another list have its length, and the
    /// content is well formed.
    pub closed spec fn wf(&self) -> bool {
        &&& self.balances@.len() == self.known@.len()
        &&& self.reserved@.len() == self.utxos@.len()
        &&& self@.wf()
    }

    /// A well-formed wallet has well-formed content.
    pub proof fn lemma_wf_view(&self)
        requires
            self.wf(),
        ensures
            self@.wf(),
    {
    }

    /// A wallet that holds nothing yet.
    pub fn new(info: WalletInfo) -> (wallet: Wallet)
        ensures
            wallet.wf(),
            wallet@ == (WalletView {
                info: info@,
                known_addresses: Seq::empty(),
                utxos: Seq::empty(),
                unused_asset_locks: Seq::empty(),
                identities: Map::empty(),
            }),
    {
        let wallet = Wallet {
            info,
            known: Vec::new(),
            balances: Vec::new(),
            utxos: Vec::new(),
            reserved: Vec::new(),
            unused_asset_locks: Vec::new(),
            identities: HashMap::new(),
        };
        assert(wallet@.known_addresses =~= Seq::empty());
        assert(wallet@.utxos =~= Seq::empty());
        assert(wallet@.unused_asset_locks =~= Seq::empty());
        wallet
    }

    /// What the wallet is and how it is shown.
    pub fn info(&self) -> (info: &WalletInfo)
        ensures
            info@ == self@.info,
    {
        &self.info
    }

    /// The hash that identifies the wallet.
    pub fn seed_hash(&self) -> (seed_hash: WalletSeedHash)
        ensures
            seed_hash == self@.seed_hash(),
    {
        self.info.wallet_seed.seed_hash()
    }

    /// Gives the wallet another alias, or none.
    pub fn set_alias(&mut self, alias: Option<String>)
        ensures
            final(self)@ == (WalletView {
                info: WalletInfoView { alias: text_option_view(alias), ..old(self)@.info },
                ..old(self)@
            }),
            old(self).wf() ==> final(self).wf(),
    {
        self.info.alias = alias;
    }

    /// Says whether the wallet is the main one.
    pub fn set_main(&mut self, is_main: bool)
        ensures
            final(self)@ == (WalletView {
                info: WalletInfoView { is_main, ..old(self)@.info },
                ..old(self)@
            }),
            old(self).wf() ==> final(self).wf(),
    {
        self.info.is_main = is_main;
    }

    /// The position of `address` in the registry.
    fn find_known(&self, address: &Address) -> (found: Option<usize>)
        requires
            self.wf(),
        ensures
            match found {
                Some(j) => j < self@.known_addresses.len() && self@.known_addresses[j as int].address
                    == *address,
                None => !self@.knows(*address),
            },
    {
        let mut j: usize = 0;
        while j < self.known.len()
            invariant
                j <= self.known.len(),
                self.known@.len() == self@.known_addresses.len(),
                forall|k: int| 0 <= k < j ==> (#[trigger] self@.known_addresses[k]).address != *address,
            decreases self.known.len() - j,
        {
            if self.known[j].address == *address {
                return Some(j);
            }
            j = j + 1;
        }
        None
    }

    /// The position of the unspent output `outpoint`.
    fn find_utxo(&self, outpoint: &OutPoint) -> (found: Option<usize>)
        requires
            self.wf(),
        ensures
            match found {
                Some(i) => i < self@.utxos.len() && self@.utxos[i as int].outpoint == *outpoint,
                None => !self@.holds(*outpoint),
            },
    {
        let mut i: usize = 0;
        while i < self.utxos.len()
            invariant
                i <= self.utxos.len(),
                self.utxos@.len() == self@.utxos.len(),
                forall|k: int| 0 <= k < i ==> (#[trigger] self@.utxos[k]).outpoint != *outpoint,
            decreases self.utxos.len() - i,
        {
            if self.utxos[i].outpoint == *outpoint {
                return Some(i);
            }
            i = i + 1;
        }
        None
    }

    /// Tells whether the wallet has registered `address`.
    pub fn knows_address(&self, address: &Address) -> (known: bool)
        requires
            self.wf(),
        ensures
            known == self@.knows(*address),
    {
        self.find_known(address).is_some()
    }

    /// Tells whether the wallet holds an unspent output with this outpoint.
    pub fn contains_utxo(&self, outpoint: &OutPoint) -> (held: bool)
        requires
            self.wf(),
        ensures
            held == self@.holds(*outpoint),
    {
        self.find_utxo(outpoint).is_some()
    }

    /// The number of unspent outputs.
    pub fn utxo_count(&self) -> (count: usize)
        requires
            self.wf(),
        ensures
            count == self@.utxos.len(),
    {
        self.utxos.len()
    }

    /// The number of registered addresses.
    pub fn known_address_count(&self) -> (count: usize)
        requires
            self.wf(),
        ensures
            count == self@.known_addresses.len(),
    {
        self.known.len()
    }

    /// The balance kept for `address`: the sum of the values of the unspent
    /// outputs that pay it.
    pub fn balance_of(&self, address: &Address) -> (balance: u64)
        requires
            self.wf(),
        ensures
            balance == self@.cached_balance(*address),
            balance == balance_of_utxos(self@.utxos, *address),
    {
        proof {
            lemma_cached_balance_is_sum(self@, *address);
        }
        match self.find_known(address) {
            Some(j) => {
                proof {
                    let w = choose|w: int|
                        0 <= w < self@.known_addresses.len() && (
                        #[trigger] self@.known_addresses[w]).address == *address;
                    assert(w == j);
                }
                self.balances[j]
            },
            None => 0,
        }
    }
}


/// The registry entry that `address` gets: its balance is zero.
pub open spec fn new_registry_entry(known: KnownAddress) -> KnownAddressView {
    KnownAddressView {
        address: known.address,
        derivation_path: known.derivation_path@,
        path_reference: known.path_reference,
        path_type: known.path_type,
        balance: 0,
    }
}

/// The wallet after an address was registered with the path in `entry`: a
/// new address gets an entry at the end of the registry, with balance zero;
/// an address that was registered keeps its place and its balance.
pub open spec fn spec_register_address(wallet: WalletView, entry: KnownAddressView) -> WalletView {
    if wallet.knows(entry.address) {
        let j = choose|j: int|
            0 <= j < wallet.known_addresses.len() && (
            #[trigger] wallet.known_addresses[j]).address == entry.address;
        WalletView {
            known_addresses: wallet.known_addresses.update(
                j,
                KnownAddressView { balance: wallet.known_addresses[j].balance, ..entry },
            ),
            ..wallet
        }
    } else {
        WalletView {
            known_addresses: wallet.known_addresses.push(KnownAddressView { balance: 0, ..entry }),
            ..wallet
        }
    }
}

/// The unspent output that `add_utxo` stores: it is not reserved.
pub open spec fn new_utxo(address: Address, outpoint: OutPoint, output: TxOutView) -> UtxoView {
    UtxoView {
        outpoint,
        address,
        value: output.value,
        script_pubkey: output.script_pubkey,
        reserved: false,
    }
}

/// The registry after the balance of entry `j` has been set to `balance`.
pub open spec fn with_balance(known: Seq<KnownAddressView>, j: int, balance: u64) -> Seq<
    KnownAddressView,
> {
    known.update(j, KnownAddressView { balance, ..known[j] })
}

/// The registry with the balance of each address set to the sum of the
/// values of the outputs in `utxos` that pay it.
pub open spec fn with_balances_of(known: Seq<KnownAddressView>, utxos: Seq<UtxoView>) -> Seq<
    KnownAddressView,
> {
    Seq::new(
        known.len(),
        |j: int|
            KnownAddressView {
                balance: balance_of_utxos(utxos, known[j].address) as u64,
                ..known[j]
            },
    )
}

/// The outputs with the mark of those in `claimed` set to `mark`.
pub open spec fn with_marks(utxos: Seq<UtxoView>, claimed: Seq<OutPoint>, mark: bool) -> Seq<
    UtxoView,
> {
    Seq::new(
        utxos.len(),
        |i: int|
            if claimed.contains(utxos[i].outpoint) {
                UtxoView { reserved: mark, ..utxos[i] }
            } else {
                utxos[i]
            },
    )
}

/// Every outpoint in `claimed` is that of an output in `utxos` that is not
/// reserved.
pub open spec fn all_free(utxos: Seq<UtxoView>, claimed: Seq<OutPoint>) -> bool {
    forall|k: int| 0 <= k < claimed.len() ==> is_free(utxos, #[trigger] claimed[k])
}

/// `outpoint` is that of an output in `utxos` that is not reserved.
pub open spec fn is_free(utxos: Seq<UtxoView>, outpoint: OutPoint) -> bool {
    exists|i: int|
        0 <= i < utxos.len() && (#[trigger] utxos[i]).outpoint == outpoint && !utxos[i].reserved
}

impl Wallet {
    /// Registers an address with the path it was derived on. An address that
    /// is registered already keeps its place and its balance, and takes the
    /// path given now.
    pub fn register_address(&mut self, known: KnownAddress) -> (added: bool)
        requires
            old(self).wf(),
        ensures
            final(self).wf(),
            added == !old(self)@.knows(known.address),
            final(self)@ == spec_register_address(old(self)@, new_registry_entry(known)),
    {
        let ghost entry = new_registry_entry(known);
        let ghost before = old(self)@;
        match self.find_known(&known.address) {
            Some(j) => {
                proof {
                    let w = choose|w: int|
                        0 <= w < before.known_addresses.len() && (
                        #[trigger] before.known_addresses[w]).address == entry.address;
                    assert(w == j);
                }
                self.known.set(j, known);
                proof {
                    let after = self@;
                    assert(after.utxos =~= before.utxos);
                    assert(after.known_addresses =~= before.known_addresses.update(
                        j as int,
                        KnownAddressView {
                            balance: before.known_addresses[j as int].balance,
                            ..entry
                        },
                    ));
                    assert forall|i: int| 0 <= i < after.utxos.len() implies after.knows(
                        (#[trigger] after.utxos[i]).address,
                    ) by {
                        assert(before.knows(before.utxos[i].address));
                        let w = choose|w: int|
                            0 <= w < before.known_addresses.len() && (
                            #[trigger] before.known_addresses[w]).address
                                == before.utxos[i].address;
                        assert(after.known_addresses[w].address == after.utxos[i].address);
                    }
                    assert forall|k: int| 0 <= k < after.known_addresses.len() implies (
                    #[trigger] after.known_addresses[k]).balance == balance_of_utxos(
                        after.utxos,
                        after.known_addresses[k].address,
                    ) by {
                        assert(before.known_addresses[k].balance == balance_of_utxos(
                            before.utxos,
                            before.known_addresses[k].address,
                        ));
                    }
                    assert forall|a: int, b: int|
                        0 <= a < b < after.known_addresses.len() implies (
                    #[trigger] after.known_addresses[a]).address != (
                    #[trigger] after.known_addresses[b]).address by {
                        assert(before.known_addresses[a].address
                            != before.known_addresses[b].address);
                    }
                }
                false
            },
            None => {
                self.known.push(known);
                self.balances.push(0);
                proof {
                    let after = self@;
                    assert(after.utxos =~= before.utxos);
                    assert(after.known_addresses =~= before.known_addresses.push(entry));
                    assert forall|i: int| 0 <= i < after.utxos.len() implies after.knows(
                        (#[trigger] after.utxos[i]).address,
                    ) by {
                        assert(before.knows(before.utxos[i].address));
                        let w = choose|w: int|
                            0 <= w < before.known_addresses.len() && (
                            #[trigger] before.known_addresses[w]).address
                                == before.utxos[i].address;
                        assert(after.known_addresses[w].address == after.utxos[i].address);
                    }
                    assert forall|j: int| 0 <= j < after.known_addresses.len() implies (
                    #[trigger] after.known_addresses[j]).balance == balance_of_utxos(
                        after.utxos,
                        after.known_addresses[j].address,
                    ) by {
                        if j == before.known_addresses.len() {
                            assert forall|i: int| 0 <= i < before.utxos.len() implies (
                            #[trigger] before.utxos[i]).address != entry.address by {
                                assert(before.knows(before.utxos[i].address));
                            }
                            lemma_balance_zero(before.utxos, entry.address);
                        } else {
                            assert(after.known_addresses[j] == before.known_addresses[j]);
                        }
                    }
                    assert forall|i: int, j: int|
                        0 <= i < j < after.known_addresses.len() implies (
                    #[trigger] after.known_addresses[i]).address != (
                    #[trigger] after.known_addresses[j]).address by {
                        assert(after.known_addresses[i] == before.known_addresses[i]);
                        if j < before.known_addresses.len() {
                            assert(after.known_addresses[j] == before.known_addresses[j]);
                        }
                    }
                }
                true
            },
        }
    }

    /// Adds an unspent output that pays `address`, and adds its value to the
    /// balance kept for that address.
    ///
    /// The output is refused, and the wallet left as it was, if the address
    /// is not registered, if the wallet holds the outpoint already, or if
    /// the balance would no longer fit in 64 bits.
    pub fn add_utxo(&mut self, address: Address, outpoint: OutPoint, output: TxOut) -> (result:
        Result<(), UtxoError>)
        requires
            old(self).wf(),
        ensures
            final(self).wf(),
            result == spec_add_utxo_outcome(old(self)@, address, outpoint, output@),
            result is Ok ==> final(self)@ == spec_add_utxo(old(self)@, address, outpoint, output@),
            result is Err ==> final(self)@ == old(self)@,
            result is Ok ==> forall|other: Address|
                balance_of_utxos(final(self)@.utxos, other) == balance_of_utxos(
                    old(self)@.utxos,
                    other,
                ) + if other == address {
                    output.value as nat
                } else {
                    0
                },
    {
        let found = self.find_known(&address);
        let j = match found {
            Some(j) => j,
            None => {
                return Err(UtxoError::UnknownAddress);
            },
        };
        if self.find_utxo(&outpoint).is_some() {
            return Err(UtxoError::DuplicateOutpoint);
        }
        let balance = match self.balances[j].checked_add(output.value) {
            Some(balance) => balance,
            None => {
                return Err(UtxoError::BalanceOverflow);
            },
        };
        let ghost added = new_utxo(address, outpoint, output@);
        let ghost before = old(self)@;
        proof {
            let w = choose|w: int|
                0 <= w < before.known_addresses.len() && (
                #[trigger] before.known_addresses[w]).address == address;
            assert(w == j);
        }
        self.utxos.push(Utxo { outpoint, address, output });
        self.reserved.push(false);
        self.balances.set(j, balance);
        proof {
            let after = self@;
            assert(after.utxos =~= before.utxos.push(added));
            assert(after.known_addresses =~= with_balance(
                before.known_addresses,
                j as int,
                balance,
            ));
            assert forall|other: Address|
                balance_of_utxos(after.utxos, other) == balance_of_utxos(before.utxos, other)
                    + if other == address {
                    output.value as nat
                } else {
                    0
                } by {
                lemma_balance_push(before.utxos, added, other);
            }
            assert forall|i: int| 0 <= i < after.utxos.len() implies after.knows(
                (#[trigger] after.utxos[i]).address,
            ) by {
                if i < before.utxos.len() {
                    assert(before.knows(before.utxos[i].address));
                    let w = choose|w: int|
                        0 <= w < before.known_addresses.len() && (
                        #[trigger] before.known_addresses[w]).address
                            == before.utxos[i].address;
                    assert(after.known_addresses[w].address == after.utxos[i].address);
                } else {
                    assert(after.known_addresses[j as int].address == address);
                }
            }
            assert forall|k: int| 0 <= k < after.known_addresses.len() implies (
            #[trigger] after.known_addresses[k]).balance == balance_of_utxos(
                after.utxos,
                after.known_addresses[k].address,
            ) by {
                assert(before.known_addresses[k].balance == balance_of_utxos(
                    before.utxos,
                    before.known_addresses[k].address,
                ));
                if k != j {
                    assert(before.known_addresses[k].address
                        != before.known_addresses[j as int].address);
                }
            }
            assert forall|a: int, b: int| 0 <= a < b < after.utxos.len() implies (
            #[trigger] after.utxos[a]).outpoint != (#[trigger] after.utxos[b]).outpoint by {
                if b == before.utxos.len() {
                    assert(before.utxos[a].outpoint != outpoint);
                } else {
                    assert(before.utxos[a].outpoint != before.utxos[b].outpoint);
                }
            }
            assert forall|a: int, b: int|
                0 <= a < b < after.known_addresses.len() implies (
            #[trigger] after.known_addresses[a]).address != (
            #[trigger] after.known_addresses[b]).address by {
                assert(before.known_addresses[a].address != before.known_addresses[b].address);
            }
        }
        Ok(())
    }
}

/// Whether the wallet takes a new unspent output, and why not.
pub open spec fn spec_add_utxo_outcome(
    wallet: WalletView,
    address: Address,
    outpoint: OutPoint,
    output: TxOutView,
) -> Result<(), UtxoError> {
    if !wallet.knows(address) {
        Err(UtxoError::UnknownAddress)
    } else if wallet.holds(outpoint) {
        Err(UtxoError::DuplicateOutpoint)
    } else if wallet.cached_balance(address) + output.value > u64::MAX {
        Err(UtxoError::BalanceOverflow)
    } else {
        Ok(())
    }
}

/// The wallet after it has taken a new unspent output: the output stands at
/// the end of the list, and the balance kept for its address has grown by
/// its value.
pub open spec fn spec_add_utxo(
    wallet: WalletView,
    address: Address,
    outpoint: OutPoint,
    output: TxOutView,
) -> WalletView {
    let j = choose|j: int|
        0 <= j < wallet.known_addresses.len() && (#[trigger] wallet.known_addresses[j]).address
            == address;
    WalletView {
        known_addresses: with_balance(
            wallet.known_addresses,
            j,
            (wallet.known_addresses[j].balance + output.value) as u64,
        ),
        utxos: wallet.utxos.push(new_utxo(address, outpoint, output)),
        ..wallet
    }
}


/// Whether a set of outpoints can be reserved, and why not: the first
/// outpoint that the wallet does not hold, or that is reserved already,
/// decides.
pub open spec fn spec_reserve_outcome(utxos: Seq<UtxoView>, claimed: Seq<OutPoint>) -> Result<
    (),
    UtxoError,
>
    decreases claimed.len(),
{
    if claimed.len() == 0 {
        Ok(())
    } else {
        match spec_reserve_outcome(utxos, claimed.drop_last()) {
            Err(e) => Err(e),
            Ok(()) => if !holds_outpoint(utxos, claimed.last()) {
                Err(UtxoError::UnknownOutpoint)
            } else if !is_free(utxos, claimed.last()) {
                Err(UtxoError::AlreadyReserved)
            } else {
                Ok(())
            },
        }
    }
}

/// A set of outpoints can be reserved exactly when each of them is that of
/// an unspent output that is not reserved.
pub proof fn lemma_reserve_outcome(utxos: Seq<UtxoView>, claimed: Seq<OutPoint>)
    ensures
        spec_reserve_outcome(utxos, claimed) is Ok <==> all_free(utxos, claimed),
    decreases claimed.len(),
{
    if claimed.len() > 0 {
        let rest = claimed.drop_last();
        lemma_reserve_outcome(utxos, rest);
        if all_free(utxos, claimed) {
            assert forall|k: int| 0 <= k < rest.len() implies is_free(
                utxos,
                #[trigger] rest[k],
            ) by {
                assert(rest[k] == claimed[k]);
            }
            assert(is_free(utxos, claimed[claimed.len() - 1]));
        }
        if spec_reserve_outcome(utxos, claimed) is Ok {
            assert forall|k: int| 0 <= k < claimed.len() implies is_free(
                utxos,
                #[trigger] claimed[k],
            ) by {
                if k < rest.len() {
                    assert(rest[k] == claimed[k]);
                }
            }
        }
    }
}

/// The sum of the values of the outputs that pay `address`.
fn sum_for_address(utxos: &Vec<Utxo>, reserved: &Vec<bool>, address: &Address) -> (total: u64)
    requires
        balance_of_utxos(utxo_list_view(utxos@, reserved@), *address) <= u64::MAX,
    ensures
        total == balance_of_utxos(utxo_list_view(utxos@, reserved@), *address),
{
    let ghost all = utxo_list_view(utxos@, reserved@);
    let mut total: u64 = 0;
    let mut i: usize = 0;
    while i < utxos.len()
        invariant
            i <= utxos.len(),
            all == utxo_list_view(utxos@, reserved@),
            balance_of_utxos(all, *address) <= u64::MAX,
            total == balance_of_utxos(all.take(i as int), *address),
        decreases utxos.len() - i,
    {
        proof {
            lemma_balance_prefix(all, i + 1, *address);
            assert(all.take(i + 1).drop_last() =~= all.take(i as int));
        }
        if utxos[i].address == *address {
            total = total + utxos[i].output.value;
        }
        i = i + 1;
    }
    assert(all.take(i as int) =~= all);
    total
}

impl Wallet {
    /// Sets the mark of every unspent output whose outpoint is in `claimed`.
    fn mark(&mut self, claimed: &Vec<OutPoint>, mark: bool)
        requires
            old(self).wf(),
        ensures
            final(self).wf(),
            final(self)@ == (WalletView {
                utxos: with_marks(old(self)@.utxos, claimed@, mark),
                ..old(self)@
            }),
    {
        let ghost before = old(self)@;
        let mut i: usize = 0;
        while i < self.utxos.len()
            invariant
                i <= self.utxos.len(),
                self.utxos == old(self).utxos,
                self.known == old(self).known,
                self.balances == old(self).balances,
                self.info == old(self).info,
                self.unused_asset_locks == old(self).unused_asset_locks,
                self.identities == old(self).identities,
                self.reserved@.len() == self.utxos@.len(),
                forall|k: int|
                    0 <= k < i ==> self.reserved@[k] == if claimed@.contains(
                        self.utxos@[k].outpoint,
                    ) {
                        mark
                    } else {
                        old(self).reserved@[k]
                    },
                forall|k: int| i <= k < self.utxos@.len() ==> self.reserved@[k] == old(
                    self,
                ).reserved@[k],
            decreases self.utxos.len() - i,
        {
            if contains_outpoint(claimed, &self.utxos[i].outpoint) {
                self.reserved.set(i, mark);
            }
            i = i + 1;
        }
        proof {
            let after = self@;
            assert(after.utxos =~= with_marks(before.utxos, claimed@, mark));
            assert(after.known_addresses =~= before.known_addresses);
            assert forall|k: int| 0 <= k < after.utxos.len() implies after.knows(
                (#[trigger] after.utxos[k]).address,
            ) by {
                assert(before.knows(before.utxos[k].address));
            }
            assert forall|j: int| 0 <= j < after.known_addresses.len() implies (
            #[trigger] after.known_addresses[j]).balance == balance_of_utxos(
                after.utxos,
                after.known_addresses[j].address,
            ) by {
                lemma_balance_ignores_marks(
                    after.utxos,
                    before.utxos,
                    after.known_addresses[j].address,
                );
            }
            assert forall|a: int, b: int| 0 <= a < b < after.utxos.len() implies (
            #[trigger] after.utxos[a]).outpoint != (#[trigger] after.utxos[b]).outpoint by {
                assert(before.utxos[a].outpoint != before.utxos[b].outpoint);
            }
        }
    }

    /// Reserves unspent outputs for a transaction under construction, so that
    /// no other construction selects them. Either all of `claimed` are
    /// reserved, or none is and the wallet is left as it was.
    pub fn reserve(&mut self, claimed: &Vec<OutPoint>) -> (result: Result<(), UtxoError>)
        requires
            old(self).wf(),
        ensures
            final(self).wf(),
            result == spec_reserve_outcome(old(self)@.utxos, claimed@),
            result is Ok <==> all_free(old(self)@.utxos, claimed@),
            result is Ok ==> final(self)@ == (WalletView {
                utxos: with_marks(old(self)@.utxos, claimed@, true),
                ..old(self)@
            }),
            result is Err ==> final(self)@ == old(self)@,
    {
        let ghost utxos = self@.utxos;
        proof {
            lemma_reserve_outcome(utxos, claimed@);
        }
        let mut k: usize = 0;
        while k < claimed.len()
            invariant
                k <= claimed.len(),
                self == old(self),
                self.wf(),
                utxos == self@.utxos,
                spec_reserve_outcome(utxos, claimed@.take(k as int)) is Ok,
            decreases claimed.len() - k,
        {
            proof {
                assert(claimed@.take(k + 1).drop_last() =~= claimed@.take(k as int));
                assert(claimed@.take(k + 1).last() == claimed@[k as int]);
            }
            let found = self.find_utxo(&claimed[k]);
            let ghost step = spec_reserve_outcome(utxos, claimed@.take(k + 1));
            match found {
                None => {
                    proof {
                        assert(step == Err::<(), UtxoError>(UtxoError::UnknownOutpoint));
                        lemma_reserve_outcome_prefix(utxos, claimed@, k + 1);
                    }
                    return Err(UtxoError::UnknownOutpoint);
                },
                Some(i) => {
                    if self.reserved[i] {
                        proof {
                            assert(!is_free(utxos, claimed@[k as int])) by {
                                if is_free(utxos, claimed@[k as int]) {
                                    let w = choose|w: int|
                                        0 <= w < utxos.len() && (#[trigger] utxos[w]).outpoint
                                            == claimed@[k as int] && !utxos[w].reserved;
                                    assert(w == i);
                                }
                            }
                            assert(step == Err::<(), UtxoError>(UtxoError::AlreadyReserved));
                            lemma_reserve_outcome_prefix(utxos, claimed@, k + 1);
                        }
                        return Err(UtxoError::AlreadyReserved);
                    }
                    proof {
                        assert(is_free(utxos, claimed@[k as int]));
                    }
                },
            }
            k = k + 1;
        }
        proof {
            assert(claimed@.take(k as int) =~= claimed@);
        }
        self.mark(claimed, true);
        Ok(())
    }

    /// Gives reserved outputs back: the outputs in `claimed` that the wallet
    /// holds can be selected again.
    pub fn release(&mut self, claimed: &Vec<OutPoint>)
        requires
            old(self).wf(),
        ensures
            final(self).wf(),
            final(self)@ == (WalletView {
                utxos: with_marks(old(self)@.utxos, claimed@, false),
                ..old(self)@
            }),
    {
        self.mark(claimed, false);
    }

    /// Tells whether the wallet holds `outpoint` and a transaction under
    /// construction has claimed it.
    pub fn is_reserved(&self, outpoint: &OutPoint) -> (reserved: bool)
        requires
            self.wf(),
        ensures
            reserved == (self@.holds(*outpoint) && !is_free(self@.utxos, *outpoint)),
    {
        match self.find_utxo(outpoint) {
            Some(i) => {
                proof {
                    let utxos = self@.utxos;
                    if is_free(utxos, *outpoint) {
                        let w = choose|w: int|
                            0 <= w < utxos.len() && (#[trigger] utxos[w]).outpoint == *outpoint
                                && !utxos[w].reserved;
                        assert(w == i);
                    }
                }
                self.reserved[i]
            },
            None => false,
        }
    }

    /// Removes the unspent outputs whose outpoint is in `spent`, and brings
    /// the balance kept for each address down by what was removed. An
    /// address whose last output leaves stays registered, with balance zero.
    pub fn remove_utxos(&mut self, spent: &Vec<OutPoint>)
        requires
            old(self).wf(),
        ensures
            final(self).wf(),
            final(self)@ == spec_remove_utxos(old(self)@, spent@),
            forall|outpoint: OutPoint|
                final(self)@.holds(outpoint) <==> old(self)@.holds(outpoint) && !spent@.contains(
                    outpoint,
                ),
    {
        let ghost before = old(self)@;
        let ghost target = without_spent(before.utxos, spent@);
        let mut kept: Vec<Utxo> = Vec::new();
        let mut kept_marks: Vec<bool> = Vec::new();
        let mut i: usize = 0;
        while i < self.utxos.len()
            invariant
                i <= self.utxos.len(),
                self == old(self),
                self.wf(),
                before == self@,
                kept_marks@.len() == kept@.len(),
                utxo_list_view(kept@, kept_marks@) == without_spent(
                    before.utxos.take(i as int),
                    spent@,
                ),
            decreases self.utxos.len() - i,
        {
            proof {
                assert(before.utxos.take(i + 1).drop_last() =~= before.utxos.take(i as int));
                assert(before.utxos.take(i + 1).last() == before.utxos[i as int]);
            }
            if !contains_outpoint(spent, &self.utxos[i].outpoint) {
                let ghost so_far = utxo_list_view(kept@, kept_marks@);
                kept.push(self.utxos[i].clone());
                kept_marks.push(self.reserved[i]);
                proof {
                    assert(utxo_list_view(kept@, kept_marks@) =~= so_far.push(
                        before.utxos[i as int],
                    ));
                }
            }
            i = i + 1;
        }
        proof {
            assert(before.utxos.take(i as int) =~= before.utxos);
            lemma_without_spent(before.utxos, spent@);
        }
        self.utxos = kept;
        self.reserved = kept_marks;
        let mut j: usize = 0;
        while j < self.known.len()
            invariant
                j <= self.known.len(),
                before == old(self)@,
                old(self).wf(),
                self.known == old(self).known,
                self.info == old(self).info,
                self.unused_asset_locks == old(self).unused_asset_locks,
                self.identities == old(self).identities,
                self.balances@.len() == self.known@.len(),
                self.reserved@.len() == self.utxos@.len(),
                utxo_list_view(self.utxos@, self.reserved@) == target,
                target == without_spent(before.utxos, spent@),
                forall|address: Address|
                    #[trigger] balance_of_utxos(target, address) <= balance_of_utxos(
                        before.utxos,
                        address,
                    ),
                forall|k: int|
                    0 <= k < j ==> self.balances@[k] == balance_of_utxos(
                        target,
                        self.known@[k].address,
                    ),
            decreases self.known.len() - j,
        {
            proof {
                let address = self.known@[j as int].address;
                assert(before.known_addresses[j as int].address == address);
                assert(before.known_addresses[j as int].balance == balance_of_utxos(
                    before.utxos,
                    address,
                ));
                assert(balance_of_utxos(target, address) <= balance_of_utxos(
                    before.utxos,
                    address,
                ));
            }
            let balance = sum_for_address(&self.utxos, &self.reserved, &self.known[j].address);
            self.balances.set(j, balance);
            j = j + 1;
        }
        proof {
            let after = self@;
            assert(after.utxos == target);
            assert(after.known_addresses =~= with_balances_of(before.known_addresses, target));
            assert forall|k: int| 0 <= k < after.utxos.len() implies after.knows(
                (#[trigger] after.utxos[k]).address,
            ) by {
                assert(before.utxos.contains(target[k]));
                let w = choose|w: int| 0 <= w < before.utxos.len() && before.utxos[w] == target[k];
                assert(before.knows(before.utxos[w].address));
                let r = choose|r: int|
                    0 <= r < before.known_addresses.len() && (
                    #[trigger] before.known_addresses[r]).address == before.utxos[w].address;
                assert(after.known_addresses[r].address == target[k].address);
            }
            assert forall|a: int, b: int|
                0 <= a < b < after.known_addresses.len() implies (
            #[trigger] after.known_addresses[a]).address != (
            #[trigger] after.known_addresses[b]).address by {
                assert(before.known_addresses[a].address != before.known_addresses[b].address);
            }
            assert forall|outpoint: OutPoint|
                after.holds(outpoint) <==> before.holds(outpoint) && !spent@.contains(
                    outpoint,
                ) by {
                if after.holds(outpoint) {
                    let k = choose|k: int|
                        0 <= k < target.len() && (#[trigger] target[k]).outpoint == outpoint;
                    assert(before.utxos.contains(target[k]));
                    let w = choose|w: int|
                        0 <= w < before.utxos.len() && before.utxos[w] == target[k];
                    assert(before.utxos[w].outpoint == outpoint);
                }
                if before.holds(outpoint) && !spent@.contains(outpoint) {
                    let w = choose|w: int|
                        0 <= w < before.utxos.len() && (#[trigger] before.utxos[w]).outpoint
                            == outpoint;
                    assert(target.contains(before.utxos[w]));
                    let k = choose|k: int| 0 <= k < target.len() && target[k] == before.utxos[w];
                    assert(target[k].outpoint == outpoint);
                }
            }
        }
    }
}

/// The wallet after the outputs in `spent` have left it.
pub open spec fn spec_remove_utxos(wallet: WalletView, spent: Seq<OutPoint>) -> WalletView {
    WalletView {
        utxos: without_spent(wallet.utxos, spent),
        known_addresses: with_balances_of(
            wallet.known_addresses,
            without_spent(wallet.utxos, spent),
        ),
        ..wallet
    }
}

/// An error among the first outpoints is the error of the whole list.
pub proof fn lemma_reserve_outcome_prefix(utxos: Seq<UtxoView>, claimed: Seq<OutPoint>, n: int)
    requires
        0 <= n <= claimed.len(),
        spec_reserve_outcome(utxos, claimed.take(n)) is Err,
    ensures
        spec_reserve_outcome(utxos, claimed) == spec_reserve_outcome(utxos, claimed.take(n)),
    decreases claimed.len(),
{
    if n == claimed.len() {
        assert(claimed.take(n) =~= claimed);
    } else {
        assert(claimed.drop_last().take(n) =~= claimed.take(n));
        lemma_reserve_outcome_prefix(utxos, claimed.drop_last(), n);
    }
}


/// What a funding transaction needs to know of an unspent output to spend it.
#[derive(Clone, Copy, Debug, Eq)]
pub struct UtxoSummary {
    pub outpoint: OutPoint,
    pub address: Address,
    pub value: u64,
    pub reserved: bool,
}

impl PartialEq for UtxoSummary {
    fn eq(&self, other: &Self) -> (same: bool) {
        self.outpoint == other.outpoint && self.address == other.address && self.value
            == other.value && self.reserved == other.reserved
    }
}

impl vstd::std_specs::cmp::PartialEqSpecImpl for UtxoSummary {
    open spec fn obeys_eq_spec() -> bool {
        true
    }

    open spec fn eq_spec(&self, other: &Self) -> bool {
        self.outpoint == other.outpoint && self.address == other.address && self.value
            == other.value && self.reserved == other.reserved
    }
}

impl UtxoView {
    /// The output without its locking script.
    pub open spec fn summary(self) -> UtxoSummary {
        UtxoSummary {
            outpoint: self.outpoint,
            address: self.address,
            value: self.value,
            reserved: self.reserved,
        }
    }
}

impl Wallet {
    /// The unspent output at position `index`, without its locking script.
    pub fn utxo_summary(&self, index: usize) -> (summary: UtxoSummary)
        requires
            self.wf(),
            index < self@.utxos.len(),
        ensures
            summary == self@.utxos[index as int].summary(),
    {
        UtxoSummary {
            outpoint: self.utxos[index].outpoint,
            address: self.utxos[index].address,
            value: self.utxos[index].output.value,
            reserved: self.reserved[index],
        }
    }

    /// The unspent output with this outpoint, if the wallet holds it.
    pub fn utxo(&self, outpoint: &OutPoint) -> (found: Option<&Utxo>)
        requires
            self.wf(),
        ensures
            found is Some <==> self@.holds(*outpoint),
            found matches Some(utxo) ==> utxo.outpoint == *outpoint && exists|i: int|
                0 <= i < self@.utxos.len() && #[trigger] self@.utxos[i] == (UtxoView {
                    reserved: self@.utxos[i].reserved,
                    ..utxo@
                }),
    {
        match self.find_utxo(outpoint) {
            Some(i) => {
                assert(self@.utxos[i as int] == (UtxoView {
                    reserved: self@.utxos[i as int].reserved,
                    ..self.utxos@[i as int]@
                }));
                Some(&self.utxos[i])
            },
            None => None,
        }
    }

    /// The registry entry of `address`, if the wallet has registered it.
    pub fn known_address(&self, address: &Address) -> (found: Option<&KnownAddress>)
        requires
            self.wf(),
        ensures
            found is Some <==> self@.knows(*address),
            found matches Some(known) ==> known.address == *address && exists|j: int|
                0 <= j < self@.known_addresses.len() && #[trigger] self@.known_addresses[j] == (
                KnownAddressView { balance: self@.known_addresses[j].balance, ..new_registry_entry(*known) }),
    {
        match self.find_known(address) {
            Some(j) => {
                assert(self@.known_addresses[j as int] == (KnownAddressView {
                    balance: self@.known_addresses[j as int].balance,
                    ..new_registry_entry(self.known@[j as int])
                }));
                Some(&self.known[j])
            },
            None => None,
        }
    }

    /// The registry entry at position `index`.
    pub fn known_address_at(&self, index: usize) -> (known: &KnownAddress)
        requires
            self.wf(),
            index < self@.known_addresses.len(),
        ensures
            self@.known_addresses[index as int] == (KnownAddressView {
                balance: self@.known_addresses[index as int].balance,
                ..new_registry_entry(*known)
            }),
    {
        &self.known[index]
    }
}


impl Wallet {
    /// Records a funding transaction that no identity has used yet.
    pub fn add_unused_asset_lock(&mut self, lock: UnusedAssetLock)
        requires
            old(self).wf(),
        ensures
            final(self).wf(),
            final(self)@ == (WalletView {
                unused_asset_locks: old(self)@.unused_asset_locks.push(lock@),
                ..old(self)@
            }),
    {
        let ghost lock_view = lock@;
        self.unused_asset_locks.push(lock);
        assert(self@.unused_asset_locks =~= old(self)@.unused_asset_locks.push(lock_view));
    }

    /// Drops the funding transaction `txid` from those that no identity has
    /// used: an identity has used it.
    pub fn remove_unused_asset_lock(&mut self, txid: &Txid)
        requires
            old(self).wf(),
        ensures
            final(self).wf(),
            final(self)@ == (WalletView {
                unused_asset_locks: without_lock(old(self)@.unused_asset_locks, *txid),
                ..old(self)@
            }),
    {
        let ghost before = self@.unused_asset_locks;
        let mut kept: Vec<UnusedAssetLock> = Vec::new();
        let mut k: usize = 0;
        while k < self.unused_asset_locks.len()
            invariant
                k <= self.unused_asset_locks.len(),
                self == old(self),
                before == asset_lock_views(self.unused_asset_locks@),
                asset_lock_views(kept@) == without_lock(before.take(k as int), *txid),
            decreases self.unused_asset_locks.len() - k,
        {
            proof {
                assert(before.take(k + 1).drop_last() =~= before.take(k as int));
                assert(before.take(k + 1).last() == before[k as int]);
            }
            if !bytes_eq(&self.unused_asset_locks[k].txid, txid) {
                let ghost so_far = asset_lock_views(kept@);
                kept.push(self.unused_asset_locks[k].clone());
                assert(asset_lock_views(kept@) =~= so_far.push(before[k as int]));
            }
            k = k + 1;
        }
        assert(before.take(k as int) =~= before);
        self.unused_asset_locks = kept;
    }

    /// The number of funding transactions that no identity has used yet.
    pub fn unused_asset_lock_count(&self) -> (count: usize)
        ensures
            count == self@.unused_asset_locks.len(),
    {
        self.unused_asset_locks.len()
    }

    /// The unused funding transaction at position `index`.
    pub fn unused_asset_lock_at(&self, index: usize) -> (lock: &UnusedAssetLock)
        requires
            index < self@.unused_asset_locks.len(),
        ensures
            lock@ == self@.unused_asset_locks[index as int],
    {
        &self.unused_asset_locks[index]
    }

    /// Records the identity that the wallet has funded under `index`, in
    /// place of what it held under that index.
    pub fn insert_identity(&mut self, index: u32, identity: Identity)
        requires
            old(self).wf(),
        ensures
            final(self).wf(),
            final(self)@ == (WalletView {
                identities: old(self)@.identities.insert(index, identity),
                ..old(self)@
            }),
    {
        self.identities.insert(index, identity);
    }

    /// The identity that the wallet has funded under `index`.
    pub fn identity(&self, index: u32) -> (identity: Option<Identity>)
        ensures
            identity == if self@.identities.dom().contains(index) {
                Some(self@.identities[index])
            } else {
                None
            },
    {
        match self.identities.get(&index) {
            Some(identity) => Some(*identity),
            None => None,
        }
    }
}


/// The outpoints of the outputs that are reserved, in the order of the
/// outputs.
pub open spec fn reserved_outpoints(utxos: Seq<UtxoView>) -> Seq<OutPoint>
    decreases utxos.len(),
{
    if utxos.len() == 0 {
        Seq::empty()
    } else if utxos.last().reserved {
        reserved_outpoints(utxos.drop_last()).push(utxos.last().outpoint)
    } else {
        reserved_outpoints(utxos.drop_last())
    }
}

/// The wallet after it was offered the outputs of `fresh` in order: it
/// takes each output that it accepts and passes over the others.
pub open spec fn spec_take_utxos(wallet: WalletView, fresh: Seq<UtxoView>) -> WalletView
    decreases fresh.len(),
{
    if fresh.len() == 0 {
        wallet
    } else {
        let before = spec_take_utxos(wallet, fresh.drop_last());
        let output = TxOutView {
            value: fresh.last().value,
            script_pubkey: fresh.last().script_pubkey,
        };
        if spec_add_utxo_outcome(before, fresh.last().address, fresh.last().outpoint, output)
            is Ok {
            spec_add_utxo(before, fresh.last().address, fresh.last().outpoint, output)
        } else {
            before
        }
    }
}

/// The wallet without any unspent output: every balance is zero.
pub open spec fn spec_without_utxos(wallet: WalletView) -> WalletView {
    WalletView {
        utxos: Seq::empty(),
        known_addresses: with_balances_of(wallet.known_addresses, Seq::empty()),
        ..wallet
    }
}

/// The wallet after its unspent outputs were replaced by those of `fresh`
/// that it accepts. An output that was reserved and is still there stays
/// reserved.
pub open spec fn spec_reload_utxos(wallet: WalletView, fresh: Seq<UtxoView>) -> WalletView {
    let loaded = spec_take_utxos(spec_without_utxos(wallet), fresh);
    WalletView {
        utxos: with_marks(loaded.utxos, reserved_outpoints(wallet.utxos), true),
        ..loaded
    }
}

impl Wallet {
    /// The outpoints of the outputs that a transaction under construction
    /// has claimed.
    pub fn reserved_outpoints(&self) -> (claimed: Vec<OutPoint>)
        requires
            self.wf(),
        ensures
            claimed@ == reserved_outpoints(self@.utxos),
    {
        let ghost all = self@.utxos;
        let mut claimed: Vec<OutPoint> = Vec::new();
        let mut i: usize = 0;
        while i < self.utxos.len()
            invariant
                i <= self.utxos.len(),
                self.wf(),
                all == self@.utxos,
                claimed@ == reserved_outpoints(all.take(i as int)),
            decreases self.utxos.len() - i,
        {
            proof {
                assert(all.take(i + 1).drop_last() =~= all.take(i as int));
                assert(all.take(i + 1).last() == all[i as int]);
            }
            if self.reserved[i] {
                claimed.push(self.utxos[i].outpoint);
            }
            i = i + 1;
        }
        assert(all.take(i as int) =~= all);
        claimed
    }

    /// Removes every unspent output.
    fn clear_utxos(&mut self)
        requires
            old(self).wf(),
        ensures
            final(self).wf(),
            final(self)@ == spec_without_utxos(old(self)@),
    {
        let ghost before = self@;
        self.utxos = Vec::new();
        self.reserved = Vec::new();
        let mut j: usize = 0;
        while j < self.balances.len()
            invariant
                j <= self.balances.len(),
                old(self).wf(),
                before == old(self)@,
                self.known == old(self).known,
                self.info == old(self).info,
                self.unused_asset_locks == old(self).unused_asset_locks,
                self.identities == old(self).identities,
                self.balances@.len() == self.known@.len(),
                self.utxos@.len() == 0,
                self.reserved@.len() == 0,
                forall|k: int| 0 <= k < j ==> self.balances@[k] == 0,
            decreases self.balances.len() - j,
        {
            self.balances.set(j, 0);
            j = j + 1;
        }
        proof {
            let after = self@;
            assert(after.utxos =~= Seq::empty());
            assert(after.known_addresses =~= with_balances_of(
                before.known_addresses,
                Seq::empty(),
            ));
            assert forall|a: int, b: int|
                0 <= a < b < after.known_addresses.len() implies (
            #[trigger] after.known_addresses[a]).address != (
            #[trigger] after.known_addresses[b]).address by {
                assert(before.known_addresses[a].address != before.known_addresses[b].address);
            }
        }
    }

    /// Replaces the unspent outputs of the wallet by those of `fresh` that
    /// it accepts: those that pay a registered address, each outpoint once,
    /// as long as the balance of the address fits in 64 bits. An output
    /// that was reserved and is still there stays reserved.
    pub fn reload_utxos(&mut self, fresh: &Vec<Utxo>)
        requires
            old(self).wf(),
        ensures
            final(self).wf(),
            final(self)@ == spec_reload_utxos(old(self)@, views(fresh@)),
    {
        let ghost before = self@;
        let ghost offered = views(fresh@);
        let claimed = self.reserved_outpoints();
        self.clear_utxos();
        let ghost cleared = self@;
        let mut i: usize = 0;
        while i < fresh.len()
            invariant
                i <= fresh.len(),
                self.wf(),
                offered == views(fresh@),
                self@ == spec_take_utxos(cleared, offered.take(i as int)),
            decreases fresh.len() - i,
        {
            proof {
                assert(offered.take(i + 1).drop_last() =~= offered.take(i as int));
                assert(offered.take(i + 1).last() == offered[i as int]);
            }
            let _ = self.add_utxo(fresh[i].address, fresh[i].outpoint, fresh[i].output.clone());
            i = i + 1;
        }
        assert(offered.take(i as int) =~= offered);
        self.mark(&claimed, true);
    }
}


/// An output is left after spending exactly when it was there and was not
/// spent.
pub proof fn lemma_spent_outputs_are_gone(utxos: Seq<UtxoView>, spent: Seq<OutPoint>, outpoint: OutPoint)
    ensures
        holds_outpoint(without_spent(utxos, spent), outpoint) <==> holds_outpoint(utxos, outpoint)
            && !spent.contains(outpoint),
{
    let left = without_spent(utxos, spent);
    lemma_without_spent(utxos, spent);
    if holds_outpoint(left, outpoint) {
        let k = choose|k: int| 0 <= k < left.len() && (#[trigger] left[k]).outpoint == outpoint;
        assert(utxos.contains(left[k]));
        let w = choose|w: int| 0 <= w < utxos.len() && utxos[w] == left[k];
        assert(utxos[w].outpoint == outpoint);
    }
    if holds_outpoint(utxos, outpoint) && !spent.contains(outpoint) {
        let w = choose|w: int| 0 <= w < utxos.len() && (#[trigger] utxos[w]).outpoint == outpoint;
        assert(left.contains(utxos[w]));
        let k = choose|k: int| 0 <= k < left.len() && left[k] == utxos[w];
        assert(left[k].outpoint == outpoint);
    }
}

/// An output that was reserved is not free, and reserving changes no
/// outpoint.
pub proof fn lemma_marked_outputs_are_not_free(
    utxos: Seq<UtxoView>,
    claimed: Seq<OutPoint>,
    outpoint: OutPoint,
)
    requires
        claimed.contains(outpoint),
    ensures
        !is_free(with_marks(utxos, claimed, true), outpoint),
        holds_outpoint(with_marks(utxos, claimed, true), outpoint) <==> holds_outpoint(
            utxos,
            outpoint,
        ),
{
    let marked = with_marks(utxos, claimed, true);
    if is_free(marked, outpoint) {
        let i = choose|i: int|
            0 <= i < marked.len() && (#[trigger] marked[i]).outpoint == outpoint
                && !marked[i].reserved;
        assert(utxos[i].outpoint == outpoint);
    }
    if holds_outpoint(marked, outpoint) {
        let i = choose|i: int|
            0 <= i < marked.len() && (#[trigger] marked[i]).outpoint == outpoint;
        assert(utxos[i].outpoint == outpoint);
    }
    if holds_outpoint(utxos, outpoint) {
        let i = choose|i: int| 0 <= i < utxos.len() && (#[trigger] utxos[i]).outpoint == outpoint;
        assert(marked[i].outpoint == outpoint);
    }
}


/// The outpoints of the outputs that pay `address`, in the order of the
/// outputs.
pub open spec fn outpoints_paying(utxos: Seq<UtxoView>, address: Address) -> Seq<OutPoint>
    decreases utxos.len(),
{
    if utxos.len() == 0 {
        Seq::empty()
    } else if utxos.last().address == address {
        outpoints_paying(utxos.drop_last(), address).push(utxos.last().outpoint)
    } else {
        outpoints_paying(utxos.drop_last(), address)
    }
}

impl Wallet {
    /// Tells whether the index of unspent outputs has an entry for
    /// `address`.
    pub fn has_utxos_for(&self, address: &Address) -> (indexed: bool)
        requires
            self.wf(),
        ensures
            indexed == self@.indexes(*address),
    {
        let mut i: usize = 0;
        while i < self.utxos.len()
            invariant
                i <= self.utxos.len(),
                self.utxos@.len() == self@.utxos.len(),
                forall|k: int| 0 <= k < i ==> (#[trigger] self@.utxos[k]).address != *address,
            decreases self.utxos.len() - i,
        {
            if self.utxos[i].address == *address {
                assert(self@.utxos[i as int].address == *address);
                return true;
            }
            i = i + 1;
        }
        false
    }

    /// The entry of `address` in the index of unspent outputs: the
    /// outpoints of the outputs that pay it.
    pub fn outpoints_for(&self, address: &Address) -> (outpoints: Vec<OutPoint>)
        requires
            self.wf(),
        ensures
            outpoints@ == outpoints_paying(self@.utxos, *address),
    {
        let ghost all = self@.utxos;
        let mut outpoints: Vec<OutPoint> = Vec::new();
        let mut i: usize = 0;
        while i < self.utxos.len()
            invariant
                i <= self.utxos.len(),
                self.wf(),
                all == self@.utxos,
                outpoints@ == outpoints_paying(all.take(i as int), *address),
            decreases self.utxos.len() - i,
        {
            proof {
                assert(all.take(i + 1).drop_last() =~= all.take(i as int));
                assert(all.take(i + 1).last() == all[i as int]);
            }
            if self.utxos[i].address == *address {
                outpoints.push(self.utxos[i].outpoint);
            }
            i = i + 1;
        }
        assert(all.take(i as int) =~= all);
        outpoints
    }
}

/// When the last unspent outputs of an address leave the wallet, the
/// address loses its entry in the index of unspent outputs and its balance
/// is zero; it stays registered.
pub proof fn lemma_last_output_leaves_the_index(wallet: WalletView, spent: Seq<OutPoint>, address: Address)
    requires
        wallet.wf(),
        forall|i: int|
            0 <= i < wallet.utxos.len() && (#[trigger] wallet.utxos[i]).address == address
                ==> spent.contains(wallet.utxos[i].outpoint),
    ensures
        !spec_remove_utxos(wallet, spent).indexes(address),
        balance_of_utxos(spec_remove_utxos(wallet, spent).utxos, address) == 0,
        wallet.knows(address) ==> spec_remove_utxos(wallet, spent).knows(address),
{
    let after = spec_remove_utxos(wallet, spent);
    lemma_without_spent(wallet.utxos, spent);
    assert forall|k: int| 0 <= k < after.utxos.len() implies (#[trigger] after.utxos[k]).address
        != address by {
        assert(wallet.utxos.contains(after.utxos[k]));
        let w = choose|w: int| 0 <= w < wallet.utxos.len() && wallet.utxos[w] == after.utxos[k];
        assert(!spent.contains(after.utxos[k].outpoint));
    }
    lemma_balance_zero(after.utxos, address);
    if wallet.knows(address) {
        let j = choose|j: int|
            0 <= j < wallet.known_addresses.len() && (#[trigger] wallet.known_addresses[j]).address
                == address;
        assert(after.known_addresses[j].address == address);
    }
}

/// Removing unspent outputs that have left already changes nothing.
pub proof fn lemma_remove_utxos_twice(utxos: Seq<UtxoView>, spent: Seq<OutPoint>)
    ensures
        without_spent(without_spent(utxos, spent), spent) == without_spent(utxos, spent),
    decreases utxos.len(),
{
    if utxos.len() > 0 {
        lemma_remove_utxos_twice(utxos.drop_last(), spent);
        let rest = without_spent(utxos.drop_last(), spent);
        if !spent.contains(utxos.last().outpoint) {
            assert(rest.push(utxos.last()).drop_last() =~= rest);
        }
    }
}

} // verus!
