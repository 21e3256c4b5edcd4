//! What every task of the application works on: the wallets, the registry
//! of funding transactions that wait for a proof, and the tables.

use crate::asset_lock_proof::AssetLockProofView;
use crate::chain::{bytes_eq, Network, OutPoint, Txid, WalletSeedHash};
use crate::database::{
    all_wallets_wf, has_utxo_row, lemma_loaded_outputs_are_rows, lemma_rows_are_loaded,
    rows_value, sorted_by_seed_hash, spec_wallet_from_rows, wallet_views, wallets_of_rows,
    Database, DatabaseView,
};
use crate::finality::FinalityTracker;
use crate::registration::{
    spec_step, step_view, Registration, RegistrationAction, RegistrationActionView,
    RegistrationEvent,
};
use crate::wallet::{Wallet, WalletView};
use vstd::prelude::*;

verus! {

/// The wallets, the finality registry and the tables of one network.
pub struct AppContext {
    pub network: Network,
    pub developer_mode: bool,
    pub wallets: Vec<Wallet>,
    pub transactions_waiting_for_finality: FinalityTracker,
    pub db: Database,
}

impl AppContext {
    /// Every part of the context is well formed.
    pub open spec fn wf(&self) -> bool {
        &&& all_wallets_wf(self.wallets@)
        &&& self.transactions_waiting_for_finality.wf()
        &&& self.db@.wf()
    }

    /// The position of the wallet `seed_hash`, if the context holds it.
    pub open spec fn spec_wallet_position(&self, seed_hash: WalletSeedHash) -> Option<int> {
        if exists|i: int|
            0 <= i < self.wallets@.len() && (#[trigger] self.wallets@[i])@.seed_hash() == seed_hash {
            Some(
                choose|i: int|
                    0 <= i < self.wallets@.len() && (#[trigger] self.wallets@[i])@.seed_hash()
                        == seed_hash && forall|j: int|
                        0 <= j < i ==> (#[trigger] self.wallets@[j])@.seed_hash() != seed_hash,
            )
        } else {
            None
        }
    }

    /// The context is one of `network` that has just been made: it shows
    /// nothing that only developers need, it holds no wallet, no
    /// transaction waits for a proof, and the tables are empty.
    pub open spec fn is_fresh(&self, network: Network) -> bool {
        &&& self.network == network
        &&& !self.developer_mode
        &&& self.wallets@ == Seq::<Wallet>::empty()
        &&& self.transactions_waiting_for_finality@ == Map::<
            Txid,
            Option<AssetLockProofView>,
        >::empty()
        &&& self.db@ == (DatabaseView {
            wallets: Seq::empty(),
            wallet_addresses: Seq::empty(),
            utxos: Seq::empty(),
            asset_lock_transactions: Seq::empty(),
            identities: Seq::empty(),
        })
    }

    /// A context without wallets, with nothing waiting and empty tables.
    pub fn new(network: Network) -> (context: AppContext)
        ensures
            context.wf(),
            context.is_fresh(network),
    {
        AppContext {
            network,
            developer_mode: false,
            wallets: Vec::new(),
            transactions_waiting_for_finality: FinalityTracker::new(),
            db: Database::new(),
        }
    }

    /// Tells whether the application shows what only developers need.
    pub fn is_developer_mode(&self) -> (developer_mode: bool)
        ensures
            developer_mode == self.developer_mode,
    {
        self.developer_mode
    }

    /// The position of the first wallet with the seed hash `seed_hash`.
    pub fn wallet_position(&self, seed_hash: &WalletSeedHash) -> (position: Option<usize>)
        ensures
            match position {
                Some(i) => i < self.wallets@.len() && self.wallets@[i as int]@.seed_hash()
                    == *seed_hash && forall|j: int|
                    0 <= j < i ==> (#[trigger] self.wallets@[j])@.seed_hash() != *seed_hash,
                None => forall|j: int|
                    0 <= j < self.wallets@.len() ==> (#[trigger] self.wallets@[j])@.seed_hash()
                        != *seed_hash,
            },
    {
        let mut i: usize = 0;
        while i < self.wallets.len()
            invariant
                i <= self.wallets.len(),
                forall|j: int|
                    0 <= j < i ==> (#[trigger] self.wallets@[j])@.seed_hash() != *seed_hash,
            decreases self.wallets.len() - i,
        {
            let stored = self.wallets[i].seed_hash();
            if bytes_eq(&stored, seed_hash) {
                return Some(i);
            }
            i = i + 1;
        }
        None
    }

    /// Puts the context back to what the tables `db` hold: the tables of
    /// the context are `db`, and its wallets are those that `db` holds for
    /// the network, in the order of their seed hashes. This is what is
    /// left to do where a change of the context could not be written: the
    /// context then holds again what was written last.
    pub fn restore(&mut self, db: Database)
        requires
            old(self).wf(),
            db@.wf(),
        ensures
            final(self).wf(),
            final(self).network == old(self).network,
            final(self).developer_mode == old(self).developer_mode,
            final(self).transactions_waiting_for_finality == old(
                self,
            ).transactions_waiting_for_finality,
            final(self).db@ == db@,
            sorted_by_seed_hash(wallet_views(final(self).wallets@)),
            wallets_of_rows(
                wallet_views(final(self).wallets@),
                db@,
                db@.wallets,
                old(self).network,
            ),
    {
        match db.get_wallets(&self.network) {
            Ok(wallets) => {
                self.wallets = wallets;
                self.db = db;
            },
            Err(_) => {},
        }
    }

    /// Takes one answer of the surroundings for the registration of an
    /// identity that the wallet at `position` funds: the step changes that
    /// wallet, the finality registry and the tables of the context, and
    /// says what to ask next. With no wallet at `position` nothing changes.
    pub fn register_identity(
        &mut self,
        position: usize,
        registration: &mut Registration,
        event: RegistrationEvent,
    ) -> (action: RegistrationAction)
        requires
            old(self).wf(),
        ensures
            final(self).wf(),
            final(self).network == old(self).network,
            final(self).developer_mode == old(self).developer_mode,
            final(self).wallets@.len() == old(self).wallets@.len(),
            forall|j: int|
                0 <= j < old(self).wallets@.len() && j != position ==> final(self).wallets@[j]
                    == old(self).wallets@[j],
            position < old(self).wallets@.len() ==> step_view(
                *final(registration),
                final(self).wallets@[position as int],
                final(self).transactions_waiting_for_finality,
                final(self).db,
                action,
            ) == spec_step(
                old(registration)@,
                old(self).wallets@[position as int]@,
                old(self).transactions_waiting_for_finality@,
                old(self).db@,
                event@,
            ),
            position >= old(self).wallets@.len() ==> *final(self) == *old(self)
                && *final(registration) == *old(registration)
                && action@ == RegistrationActionView::Nothing,
    {
        if position >= self.wallets.len() {
            return RegistrationAction::Nothing;
        }
        let mut wallet = self.wallets.remove(position);
        let action = registration.step(
            &mut wallet,
            &mut self.transactions_waiting_for_finality,
            &mut self.db,
            event,
        );
        self.wallets.insert(position, wallet);
        assert(self.wallets@.len() == old(self).wallets@.len());
        assert forall|j: int|
            0 <= j < old(self).wallets@.len() && j != position implies self.wallets@[j] == old(
            self,
        ).wallets@[j] by {}
        action
    }
}

/// Wallets that were read from the tables hold no unspent output that the
/// table of outputs lacks: after the context was put back to what the
/// tables hold, nothing is spendable in memory that is spent on disk.
pub proof fn lemma_restored_wallets_hold_only_rows(
    wallets: Seq<WalletView>,
    db: DatabaseView,
    network: Network,
    position: int,
    outpoint: OutPoint,
)
    requires
        wallets_of_rows(wallets, db, db.wallets, network),
        0 <= position < wallets.len(),
        wallets[position].holds(outpoint),
    ensures
        has_utxo_row(db.utxos, outpoint, network),
{
    let r = choose|r: int|
        0 <= r < db.wallets.len() && (#[trigger] db.wallets[r]).network == network
            && wallets[position] == spec_wallet_from_rows(db, db.wallets[r].info, network);
    lemma_loaded_outputs_are_rows(db, db.wallets[r].info, network, outpoint);
}

/// Wallets that were read from the tables hold every unspent output that
/// the table of outputs holds for them: the output of each row of the
/// network that pays an address of the wallet, as long as the values of
/// the rows together fit in 64 bits. After the context was put back to
/// what the tables hold, nothing is spent in memory that is spendable on
/// disk.
pub proof fn lemma_restored_wallets_hold_their_rows(
    wallets: Seq<WalletView>,
    db: DatabaseView,
    network: Network,
    position: int,
    row: int,
)
    requires
        wallets_of_rows(wallets, db, db.wallets, network),
        0 <= position < wallets.len(),
        0 <= row < db.utxos.len(),
        db.utxos[row].network == network,
        wallets[position].knows(db.utxos[row].utxo.address),
        rows_value(db.utxos) <= u64::MAX,
    ensures
        wallets[position].holds(db.utxos[row].utxo.outpoint),
{
    let r = choose|r: int|
        0 <= r < db.wallets.len() && (#[trigger] db.wallets[r]).network == network
            && wallets[position] == spec_wallet_from_rows(db, db.wallets[r].info, network);
    lemma_rows_are_loaded(db, db.wallets[r].info, network, row);
}

} // verus!
