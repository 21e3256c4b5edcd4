//! An identity as the client keeps it: the identity on the platform and
//! what the client knows of it locally.

use crate::chain::{bytes_eq, Identifier, WalletSeedHash};
use crate::views::{clone_text_option, text_option_view};
use crate::key_storage::{KeyStorage, StoredKeyView};
use vstd::prelude::*;
use vstd::std_specs::cmp::PartialEqSpecImpl;

verus! {

/// An identity on the platform.
#[derive(Clone, Copy, Debug, Eq)]
pub struct Identity {
    pub id: Identifier,
    pub balance: u64,
    pub revision: u64,
}

impl PartialEq for Identity {
    fn eq(&self, other: &Self) -> (same: bool) {
        self.balance == other.balance && self.revision == other.revision && bytes_eq(
            &self.id,
            &other.id,
        )
    }
}

impl PartialEqSpecImpl for Identity {
    open spec fn obeys_eq_spec() -> bool {
        true
    }

    open spec fn eq_spec(&self, other: &Self) -> bool {
        self.balance == other.balance && self.revision == other.revision && self.id == other.id
    }
}

impl Identity {
    /// An identity that has just been given its id: it holds no credits and
    /// has not been revised.
    pub fn new_with_id(id: Identifier) -> (identity: Identity)
        ensures
            identity == (Identity { id, balance: 0, revision: 0 }),
    {
        Identity { id, balance: 0, revision: 0 }
    }
}

/// Where the registration of an identity stands.
#[derive(Clone, Copy, Debug, PartialEq, Eq, Structural)]
pub enum IdentityStatus {
    /// The registration has been recorded and not yet confirmed.
    PendingCreation,
    /// The platform has accepted the registration; what it holds of the
    /// identity is to be fetched anew.
    Unknown,
    /// The registration has failed.
    FailedCreation,
}

impl IdentityStatus {
    /// A status changes only while the registration is pending, and then to
    /// one of the two statuses that end it.
    pub open spec fn spec_can_become(self, next: IdentityStatus) -> bool {
        self == IdentityStatus::PendingCreation && next != IdentityStatus::PendingCreation
    }

    /// The status after a change to `next` was asked for.
    pub open spec fn spec_updated(self, next: IdentityStatus) -> IdentityStatus {
        if self.spec_can_become(next) {
            next
        } else {
            self
        }
    }

    /// Changes the status to `next` where a registration can go from the
    /// one to the other, and leaves it as it is otherwise.
    pub fn update(&mut self, next: IdentityStatus) -> (changed: bool)
        ensures
            changed == old(self).spec_can_become(next),
            *final(self) == old(self).spec_updated(next),
    {
        match (*self, next) {
            (IdentityStatus::PendingCreation, IdentityStatus::Unknown) => {
                *self = next;
                true
            },
            (IdentityStatus::PendingCreation, IdentityStatus::FailedCreation) => {
                *self = next;
                true
            },
            _ => false,
        }
    }

    /// The registration has ended, well or not.
    pub fn is_final(&self) -> (ended: bool)
        ensures
            ended == (*self != IdentityStatus::PendingCreation),
    {
        match self {
            IdentityStatus::PendingCreation => false,
            _ => true,
        }
    }
}

/// A status that ends a registration is never changed again: not to
/// pending, and not to the other end.
pub proof fn lemma_final_status_stays(status: IdentityStatus, next: IdentityStatus)
    requires
        status != IdentityStatus::PendingCreation,
    ensures
        status.spec_updated(next) == status,
{
}

/// An identity with what the client knows of it locally.
#[derive(Debug, PartialEq, Eq)]
pub struct QualifiedIdentity {
    pub identity: Identity,
    pub alias: Option<String>,
    /// The keys of the identity, with where their private keys are held.
    pub private_keys: KeyStorage,
    /// The wallet that funded the identity.
    pub associated_wallet: Option<WalletSeedHash>,
    /// The index under which that wallet derives the identity's keys.
    pub wallet_index: Option<u32>,
    pub status: IdentityStatus,
}

pub struct QualifiedIdentityView {
    pub identity: Identity,
    pub alias: Option<Seq<char>>,
    pub private_keys: Seq<StoredKeyView>,
    pub associated_wallet: Option<WalletSeedHash>,
    pub wallet_index: Option<u32>,
    pub status: IdentityStatus,
}

impl View for QualifiedIdentity {
    type V = QualifiedIdentityView;

    open spec fn view(&self) -> QualifiedIdentityView {
        QualifiedIdentityView {
            identity: self.identity,
            alias: text_option_view(self.alias),
            private_keys: self.private_keys@,
            associated_wallet: self.associated_wallet,
            wallet_index: self.wallet_index,
            status: self.status,
        }
    }
}

impl Clone for QualifiedIdentity {
    fn clone(&self) -> (copy: QualifiedIdentity)
        ensures
            copy@ == self@,
    {
        QualifiedIdentity {
            identity: self.identity,
            alias: clone_text_option(&self.alias),
            private_keys: self.private_keys.clone(),
            associated_wallet: self.associated_wallet,
            wallet_index: self.wallet_index,
            status: self.status,
        }
    }
}

/// The alias that a text entered by the user stands for: none where the
/// text is empty.
pub open spec fn spec_alias_from_input(input: Seq<char>) -> Option<Seq<char>> {
    if input.len() == 0 {
        None
    } else {
        Some(input)
    }
}

impl QualifiedIdentity {
    /// The record of an identity whose registration is about to be sent:
    /// its status is pending, it has an alias only where the user entered
    /// one, and it holds the keys that the identity is registered with.
    pub fn pending(
        identity: Identity,
        alias_input: &String,
        keys: &KeyStorage,
        wallet: WalletSeedHash,
        wallet_index: u32,
    ) -> (record: QualifiedIdentity)
        ensures
            record@ == (QualifiedIdentityView {
                identity,
                alias: spec_alias_from_input(alias_input@),
                private_keys: keys@,
                associated_wallet: Some(wallet),
                wallet_index: Some(wallet_index),
                status: IdentityStatus::PendingCreation,
            }),
    {
        let alias = if alias_input.as_str().is_empty() {
            None
        } else {
            Some(alias_input.clone())
        };
        QualifiedIdentity {
            identity,
            alias,
            private_keys: keys.clone(),
            associated_wallet: Some(wallet),
            wallet_index: Some(wallet_index),
            status: IdentityStatus::PendingCreation,
        }
    }
}

} // verus!
