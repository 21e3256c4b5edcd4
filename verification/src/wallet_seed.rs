//! The seed of a wallet as it is kept: in the clear for a wallet without a
//! password, encrypted for one with a password.

use crate::chain::WalletSeedHash;
use crate::views::{clone_text_option, text_option_view};
use vstd::prelude::*;

verus! {

/// The length of a wallet seed in bytes.
pub const SEED_LENGTH: usize = 64;

/// A seed as it is stored: its hash, the stored bytes, and what is needed to
/// decrypt them where the wallet has a password.
#[derive(Debug, PartialEq, Eq)]
pub struct ClosedKeyItem {
    pub seed_hash: WalletSeedHash,
    pub encrypted_seed: Vec<u8>,
    pub salt: Vec<u8>,
    pub nonce: Vec<u8>,
    pub password_hint: Option<String>,
}

pub struct ClosedKeyItemView {
    pub seed_hash: WalletSeedHash,
    pub encrypted_seed: Seq<u8>,
    pub salt: Seq<u8>,
    pub nonce: Seq<u8>,
    pub password_hint: Option<Seq<char>>,
}

impl View for ClosedKeyItem {
    type V = ClosedKeyItemView;

    open spec fn view(&self) -> ClosedKeyItemView {
        ClosedKeyItemView {
            seed_hash: self.seed_hash,
            encrypted_seed: self.encrypted_seed@,
            salt: self.salt@,
            nonce: self.nonce@,
            password_hint: text_option_view(self.password_hint),
        }
    }
}

impl Clone for ClosedKeyItem {
    fn clone(&self) -> (copy: ClosedKeyItem)
        ensures
            copy@ == self@,
    {
        ClosedKeyItem {
            seed_hash: self.seed_hash,
            encrypted_seed: self.encrypted_seed.clone(),
            salt: self.salt.clone(),
            nonce: self.nonce.clone(),
            password_hint: clone_text_option(&self.password_hint),
        }
    }
}

/// A seed in the clear, with the record it was stored as.
#[derive(Debug, PartialEq, Eq)]
pub struct OpenWalletSeed {
    pub seed: [u8; 64],
    pub wallet_info: ClosedKeyItem,
}

pub struct OpenWalletSeedView {
    pub seed: Seq<u8>,
    pub wallet_info: ClosedKeyItemView,
}

/// The seed of a wallet: open where it can be used, closed where a password
/// is needed first.
#[derive(Debug, PartialEq, Eq)]
pub enum WalletSeed {
    Open(OpenWalletSeed),
    Closed(ClosedKeyItem),
}

pub enum WalletSeedView {
    Open(OpenWalletSeedView),
    Closed(ClosedKeyItemView),
}

impl View for WalletSeed {
    type V = WalletSeedView;

    open spec fn view(&self) -> WalletSeedView {
        match self {
            WalletSeed::Open(open) => WalletSeedView::Open(
                OpenWalletSeedView { seed: open.seed@, wallet_info: open.wallet_info@ },
            ),
            WalletSeed::Closed(closed) => WalletSeedView::Closed(closed@),
        }
    }
}

impl WalletSeedView {
    /// The record the seed was stored as.
    pub open spec fn stored(self) -> ClosedKeyItemView {
        match self {
            WalletSeedView::Open(open) => open.wallet_info,
            WalletSeedView::Closed(closed) => closed,
        }
    }

    /// The hash that identifies the wallet.
    pub open spec fn seed_hash(self) -> WalletSeedHash {
        self.stored().seed_hash
    }
}

impl Clone for WalletSeed {
    fn clone(&self) -> (copy: WalletSeed)
        ensures
            copy@ == self@,
    {
        match self {
            WalletSeed::Open(open) => WalletSeed::Open(
                OpenWalletSeed { seed: open.seed, wallet_info: open.wallet_info.clone() },
            ),
            WalletSeed::Closed(closed) => WalletSeed::Closed(closed.clone()),
        }
    }
}

/// The seed that a stored record stands for: closed where the wallet has a
/// password; otherwise open, the stored bytes being the seed itself.
pub open spec fn spec_seed_from_stored(stored: ClosedKeyItemView, uses_password: bool) -> WalletSeedView {
    if uses_password {
        WalletSeedView::Closed(stored)
    } else {
        WalletSeedView::Open(OpenWalletSeedView { seed: stored.encrypted_seed, wallet_info: stored })
    }
}

/// A stored record can be read: without a password the stored bytes are a
/// whole seed.
pub open spec fn stored_seed_is_valid(stored: ClosedKeyItemView, uses_password: bool) -> bool {
    uses_password || stored.encrypted_seed.len() == SEED_LENGTH
}

impl WalletSeed {
    /// The hash that identifies the wallet.
    pub fn seed_hash(&self) -> (seed_hash: WalletSeedHash)
        ensures
            seed_hash == self@.seed_hash(),
    {
        match self {
            WalletSeed::Open(open) => open.wallet_info.seed_hash,
            WalletSeed::Closed(closed) => closed.seed_hash,
        }
    }

    /// The record the seed is stored as.
    pub fn stored(&self) -> (stored: &ClosedKeyItem)
        ensures
            stored@ == self@.stored(),
    {
        match self {
            WalletSeed::Open(open) => &open.wallet_info,
            WalletSeed::Closed(closed) => closed,
        }
    }

    /// Reads a stored record. Without a password the stored bytes must be a
    /// seed of 64 bytes; a record of another length is refused.
    pub fn from_stored(stored: ClosedKeyItem, uses_password: bool) -> (seed: Option<WalletSeed>)
        ensures
            seed is Some <==> stored_seed_is_valid(stored@, uses_password),
            seed matches Some(s) ==> s@ == spec_seed_from_stored(stored@, uses_password),
    {
        if uses_password {
            return Some(WalletSeed::Closed(stored));
        }
        if stored.encrypted_seed.len() != SEED_LENGTH {
            return None;
        }
        let mut seed = [0u8; 64];
        let mut i: usize = 0;
        while i < SEED_LENGTH
            invariant
                i <= SEED_LENGTH,
                stored.encrypted_seed@.len() == SEED_LENGTH,
                forall|k: int| 0 <= k < i ==> seed@[k] == stored.encrypted_seed@[k],
            decreases SEED_LENGTH - i,
        {
            seed[i] = stored.encrypted_seed[i];
            i = i + 1;
        }
        assert(seed@ =~= stored.encrypted_seed@);
        Some(WalletSeed::Open(OpenWalletSeed { seed, wallet_info: stored }))
    }
}

} // verus!
