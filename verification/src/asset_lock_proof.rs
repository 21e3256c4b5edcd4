//! Finality proofs of a funding transaction, and the rule that picks the
//! proof an identity is registered with.

use crate::chain::{OutPoint, Txid};
use vstd::prelude::*;

verus! {

/// A chain-locked transaction with more confirmations than this is proven by
/// its chain lock, not by an instant lock.
pub const CHAIN_PROOF_CONFIRMATIONS: u32 = 8;

/// The funding output that an asset-lock proof speaks of when the caller names
/// no other.
pub const FUNDING_OUTPUT_INDEX: u32 = 0;

/// An instant lock on a funding transaction, with the transaction itself.
#[derive(Debug, PartialEq, Eq)]
pub struct InstantAssetLockProof {
    /// The instant-lock message, as it came from the network.
    pub instant_lock: Vec<u8>,
    /// The funding transaction, serialized.
    pub transaction: Vec<u8>,
    /// The id of the funding transaction.
    pub txid: Txid,
    /// The credit output that funds the identity.
    pub output_index: u32,
}

pub struct InstantAssetLockProofView {
    pub instant_lock: Seq<u8>,
    pub transaction: Seq<u8>,
    pub txid: Txid,
    pub output_index: u32,
}

impl View for InstantAssetLockProof {
    type V = InstantAssetLockProofView;

    open spec fn view(&self) -> InstantAssetLockProofView {
        InstantAssetLockProofView {
            instant_lock: self.instant_lock@,
            transaction: self.transaction@,
            txid: self.txid,
            output_index: self.output_index,
        }
    }
}

impl Clone for InstantAssetLockProof {
    fn clone(&self) -> (copy: InstantAssetLockProof)
        ensures
            copy@ == self@,
    {
        InstantAssetLockProof {
            instant_lock: self.instant_lock.clone(),
            transaction: self.transaction.clone(),
            txid: self.txid,
            output_index: self.output_index,
        }
    }
}

/// A chain lock at a block height, for one funding outpoint.
#[derive(Clone, Copy, Debug, PartialEq, Eq)]
pub struct ChainAssetLockProof {
    pub core_chain_locked_height: u32,
    pub out_point: OutPoint,
}

/// Evidence that a funding transaction is final.
#[derive(Debug, PartialEq, Eq)]
pub enum AssetLockProof {
    Instant(InstantAssetLockProof),
    Chain(ChainAssetLockProof),
}

pub enum AssetLockProofView {
    Instant(InstantAssetLockProofView),
    Chain(ChainAssetLockProof),
}

impl View for AssetLockProof {
    type V = AssetLockProofView;

    open spec fn view(&self) -> AssetLockProofView {
        match self {
            AssetLockProof::Instant(instant) => AssetLockProofView::Instant(instant@),
            AssetLockProof::Chain(chain) => AssetLockProofView::Chain(*chain),
        }
    }
}

impl Clone for AssetLockProof {
    fn clone(&self) -> (copy: AssetLockProof)
        ensures
            copy@ == self@,
    {
        match self {
            AssetLockProof::Instant(instant) => AssetLockProof::Instant(instant.clone()),
            AssetLockProof::Chain(chain) => AssetLockProof::Chain(*chain),
        }
    }
}

impl AssetLockProofView {
    /// The outpoint whose value the proof locks.
    pub open spec fn out_point(self) -> OutPoint {
        match self {
            AssetLockProofView::Instant(instant) => OutPoint {
                txid: instant.txid,
                vout: instant.output_index,
            },
            AssetLockProofView::Chain(chain) => chain.out_point,
        }
    }
}

impl AssetLockProof {
    /// The outpoint whose value the proof locks.
    pub fn out_point(&self) -> (out_point: OutPoint)
        ensures
            out_point == self@.out_point(),
    {
        match self {
            AssetLockProof::Instant(instant) => OutPoint {
                txid: instant.txid,
                vout: instant.output_index,
            },
            AssetLockProof::Chain(chain) => chain.out_point,
        }
    }

    pub fn is_instant(&self) -> (instant: bool)
        ensures
            instant == (self@ is Instant),
    {
        match self {
            AssetLockProof::Instant(_) => true,
            AssetLockProof::Chain(_) => false,
        }
    }
}

/// The view of an optional proof.
pub open spec fn proof_option_view(held: Option<AssetLockProof>) -> Option<AssetLockProofView> {
    match held {
        Some(p) => Some(p@),
        None => None,
    }
}

/// Copies an optional proof.
pub fn clone_proof_option(held: &Option<AssetLockProof>) -> (copy: Option<AssetLockProof>)
    ensures
        proof_option_view(copy) == proof_option_view(*held),
{
    match held {
        Some(p) => Some(p.clone()),
        None => None,
    }
}

/// What the node reports of a transaction it knows.
#[derive(Clone, Copy, Debug, PartialEq, Eq)]
pub struct RawTransactionInfo {
    /// A chain lock covers the block of the transaction.
    pub chainlock: bool,
    /// The height of that block, once the transaction is mined.
    pub height: Option<u32>,
    /// The number of blocks from that block to the tip, once it is mined.
    pub confirmations: Option<u32>,
}

impl RawTransactionInfo {
    /// The transaction is under a chain lock and buried deep enough that its
    /// instant lock must no longer be used: more than eight blocks confirm
    /// it. The height that the node reports has no part in this.
    pub open spec fn spec_chain_lock_is_durable(&self) -> bool {
        &&& self.chainlock
        &&& self.confirmations matches Some(confirmations)
        &&& confirmations > CHAIN_PROOF_CONFIRMATIONS
    }

    /// The transaction is under a chain lock and buried deep enough that its
    /// instant lock must no longer be used.
    #[verifier::when_used_as_spec(spec_chain_lock_is_durable)]
    pub fn chain_lock_is_durable(&self) -> (durable: bool)
        ensures
            durable == self.spec_chain_lock_is_durable(),
    {
        match self.confirmations {
            Some(confirmations) => self.chainlock && confirmations > CHAIN_PROOF_CONFIRMATIONS,
            None => false,
        }
    }
}

/// The proof to register with, given the proof the caller holds for the
/// transaction `txid`, what the node reports of that transaction, and the
/// height up to which the platform has seen chain locks.
///
/// `info` is the node's report where the caller's proof is an instant lock;
/// for a chain proof the node is not asked.
pub open spec fn spec_proof_for_registration(
    held: AssetLockProofView,
    txid: Txid,
    info: Option<RawTransactionInfo>,
    core_chain_locked_height: u32,
) -> AssetLockProofView {
    match (held, info) {
        (AssetLockProofView::Instant(_), Some(report)) => if report.chain_lock_is_durable() {
            AssetLockProofView::Chain(
                ChainAssetLockProof {
                    core_chain_locked_height,
                    out_point: OutPoint { txid, vout: FUNDING_OUTPUT_INDEX },
                },
            )
        } else {
            held
        },
        _ => held,
    }
}

/// Picks the proof to register with: an instant lock is kept unless the node
/// reports the transaction under a chain lock with more than eight
/// confirmations, in which case the chain proof takes its place.
pub fn proof_for_registration(
    held: AssetLockProof,
    txid: Txid,
    info: Option<RawTransactionInfo>,
    core_chain_locked_height: u32,
) -> (chosen: AssetLockProof)
    ensures
        chosen@ == spec_proof_for_registration(held@, txid, info, core_chain_locked_height),
{
    match held {
        AssetLockProof::Instant(instant) => match info {
            Some(report) => if report.chain_lock_is_durable() {
                AssetLockProof::Chain(
                    ChainAssetLockProof {
                        core_chain_locked_height,
                        out_point: OutPoint { txid, vout: FUNDING_OUTPUT_INDEX },
                    },
                )
            } else {
                AssetLockProof::Instant(instant)
            },
            None => AssetLockProof::Instant(instant),
        },
        AssetLockProof::Chain(chain) => AssetLockProof::Chain(chain),
    }
}

/// An instant lock on a transaction that has since come under a chain lock
/// with more than eight confirmations is never the proof registered with: the
/// chain proof for the transaction's funding output is.
pub proof fn lemma_stale_instant_lock_is_replaced(
    held: AssetLockProofView,
    txid: Txid,
    info: RawTransactionInfo,
    core_chain_locked_height: u32,
)
    requires
        held is Instant,
        info.chainlock,
        info.confirmations is Some,
        info.confirmations->0 > 8,
    ensures
        spec_proof_for_registration(held, txid, Some(info), core_chain_locked_height)
            == AssetLockProofView::Chain(
            ChainAssetLockProof {
                core_chain_locked_height,
                out_point: OutPoint { txid, vout: 0 },
            },
        ),
        !(spec_proof_for_registration(held, txid, Some(info), core_chain_locked_height)
            is Instant),
{
}

/// A proof is replaced only in that one case: with any other report, and for
/// any chain proof, the proof held is the proof registered with.
pub proof fn lemma_proof_kept_otherwise(
    held: AssetLockProofView,
    txid: Txid,
    info: Option<RawTransactionInfo>,
    core_chain_locked_height: u32,
)
    requires
        held is Chain || info is None || !info->0.chainlock || info->0.confirmations is None
            || info->0.confirmations->0 <= 8,
    ensures
        spec_proof_for_registration(held, txid, info, core_chain_locked_height) == held,
{
}

} // verus!
