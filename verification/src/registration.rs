//! The registration of an identity: a state machine that takes the answers
//! of the node, the signer and the platform one at a time, changes the
//! wallet, the finality registry and the tables accordingly, and says what
//! to ask next.

use crate::asset_lock_proof::{
    proof_for_registration, proof_option_view, spec_proof_for_registration, AssetLockProof,
    AssetLockProofView, ChainAssetLockProof, RawTransactionInfo,
};
use crate::chain::{Address, Identifier, Network, OutPoint, TxOut, TxOutView, Txid};
use crate::database::{
    has_utxo_row, lemma_without_spent_rows, spec_insert_identity, stored_identity_status,
    with_asset_lock_identity, without_spent_rows, Database, DatabaseView,
};
use crate::finality::{
    spec_await_resolution, spec_status, FinalityStatus, FinalityTracker, Resolution,
    ResolutionView, TrackerMap, POLL_INTERVAL_MS,
};
use crate::funding::{
    funding_result_view, input_of, lemma_single_output_is_spent, spec_funding,
    spec_funding_for_utxo, AssetLockFunding, AssetLockFundingView, FundingError,
};
use crate::identity::{
    spec_alias_from_input, Identity, IdentityStatus, QualifiedIdentity, QualifiedIdentityView,
};
use crate::wallet::{
    holds_outpoint, lemma_spent_outputs_are_gone, spec_remove_utxos, with_marks, without_lock,
    Utxo, UtxoView, Wallet, WalletView,
};
use crate::views::views;
use crate::key_storage::{KeyStorage, StoredKeyView};
use vstd::prelude::*;
use vstd::string::StringExecFns;

verus! {

/// The fee that a funding transaction leaves to the miners, in duffs.
pub const ASSET_LOCK_FEE: u64 = 3000;

/// How often a registration is sent to the platform at most: once, and once
/// more if the platform answers that it speaks another protocol version.
pub const MAX_SUBMISSIONS: u32 = 2;

/// Where the funds of a new identity come from.
#[derive(Debug, PartialEq, Eq)]
pub enum RegisterIdentityFundingMethod {
    /// A funding transaction that exists already: the address that its
    /// credit output pays, the proof that the caller holds, and its id.
    UseAssetLock(Address, AssetLockProof, Txid),
    /// The balance of the wallet: the amount to credit, and the index of
    /// the identity.
    FundWithWallet(u64, u32),
    /// One unspent output of the wallet: its outpoint, the output, the
    /// address it pays, and the index of the identity.
    FundWithUtxo(OutPoint, TxOut, Address, u32),
}

pub enum RegisterIdentityFundingMethodView {
    UseAssetLock(Address, AssetLockProofView, Txid),
    FundWithWallet(u64, u32),
    FundWithUtxo(OutPoint, TxOutView, Address, u32),
}

impl View for RegisterIdentityFundingMethod {
    type V = RegisterIdentityFundingMethodView;

    open spec fn view(&self) -> RegisterIdentityFundingMethodView {
        match self {
            RegisterIdentityFundingMethod::UseAssetLock(address, held, txid) => {
                RegisterIdentityFundingMethodView::UseAssetLock(*address, held@, *txid)
            },
            RegisterIdentityFundingMethod::FundWithWallet(amount, index) => {
                RegisterIdentityFundingMethodView::FundWithWallet(*amount, *index)
            },
            RegisterIdentityFundingMethod::FundWithUtxo(utxo, tx_out, address, index) => {
                RegisterIdentityFundingMethodView::FundWithUtxo(*utxo, tx_out@, *address, *index)
            },
        }
    }
}

/// What the user asked for: the alias of the new identity, its keys, the
/// index under which the wallet holds it, and where its funds come from.
#[derive(Debug, PartialEq, Eq)]
pub struct IdentityRegistrationInfo {
    pub alias_input: String,
    /// The keys that the identity is registered with.
    pub keys: KeyStorage,
    pub wallet_identity_index: u32,
    pub identity_funding_method: RegisterIdentityFundingMethod,
}

pub struct IdentityRegistrationInfoView {
    pub alias_input: Seq<char>,
    pub keys: Seq<StoredKeyView>,
    pub wallet_identity_index: u32,
    pub identity_funding_method: RegisterIdentityFundingMethodView,
}

impl View for IdentityRegistrationInfo {
    type V = IdentityRegistrationInfoView;

    open spec fn view(&self) -> IdentityRegistrationInfoView {
        IdentityRegistrationInfoView {
            alias_input: self.alias_input@,
            keys: self.keys@,
            wallet_identity_index: self.wallet_identity_index,
            identity_funding_method: self.identity_funding_method@,
        }
    }
}

/// What a registration failed at.
#[derive(Clone, Copy, Debug, PartialEq, Eq)]
pub enum RegistrationErrorKind {
    /// The platform did not give its metadata.
    Metadata,
    /// The wallet has no key for the address of the funding transaction.
    AssetLockNotValidForWallet,
    /// The node did not report on the funding transaction.
    TransactionInfo,
    /// The node did not give the unspent outputs of the wallet.
    UtxoReload,
    /// No funding transaction could be constructed.
    Funding(FundingError),
    /// The funding transaction could not be signed.
    Signing,
    /// The node did not take the funding transaction.
    Broadcast,
    /// The proof of the funding transaction did not come in time.
    ProofTimeout,
    /// The platform did not say whether the identity exists.
    FetchIdentity,
    /// The identity exists already.
    IdentityAlreadyExists,
    /// The platform did not accept the registration.
    Submission,
}

/// Why a registration failed: what it failed at, and the words of the
/// collaborator that refused.
#[derive(Debug, PartialEq, Eq)]
pub struct RegistrationError {
    pub kind: RegistrationErrorKind,
    pub detail: String,
}

pub struct RegistrationErrorView {
    pub kind: RegistrationErrorKind,
    pub detail: Seq<char>,
}

impl View for RegistrationError {
    type V = RegistrationErrorView;

    open spec fn view(&self) -> RegistrationErrorView {
        RegistrationErrorView { kind: self.kind, detail: self.detail@ }
    }
}

impl Clone for RegistrationError {
    fn clone(&self) -> (copy: RegistrationError)
        ensures
            copy@ == self@,
    {
        RegistrationError { kind: self.kind, detail: self.detail.clone() }
    }
}

impl RegistrationErrorView {
    /// The message that the caller is given.
    pub open spec fn message(self) -> Seq<char> {
        match self.kind {
            RegistrationErrorKind::AssetLockNotValidForWallet => "Asset Lock not valid for wallet"@,
            RegistrationErrorKind::IdentityAlreadyExists => "Identity already exists"@,
            RegistrationErrorKind::FetchIdentity => "Error fetching identity: "@ + self.detail,
            RegistrationErrorKind::ProofTimeout => "Asset lock proof did not arrive in time"@,
            RegistrationErrorKind::Funding(FundingError::AmountOverflow) => {
                "Amount and fee exceed the largest amount"@
            },
            RegistrationErrorKind::Funding(FundingError::InsufficientFunds) => {
                "Not enough funds in the wallet"@
            },
            RegistrationErrorKind::Funding(FundingError::UtxoNotOwned) => {
                "The wallet does not hold the unspent output"@
            },
            RegistrationErrorKind::Funding(FundingError::UtxoMismatch) => {
                "The unspent output is not as the wallet holds it"@
            },
            RegistrationErrorKind::Funding(FundingError::UtxoReserved) => {
                "The unspent output is in use by another transaction"@
            },
            _ => self.detail,
        }
    }
}

impl RegistrationError {
    /// The message that the caller is given: the words of the collaborator
    /// that refused, or what the registration itself found.
    pub fn message(&self) -> (message: String)
        ensures
            message@ == self@.message(),
    {
        match self.kind {
            RegistrationErrorKind::AssetLockNotValidForWallet => String::from_str(
                "Asset Lock not valid for wallet",
            ),
            RegistrationErrorKind::IdentityAlreadyExists => String::from_str(
                "Identity already exists",
            ),
            RegistrationErrorKind::FetchIdentity => String::from_str(
                "Error fetching identity: ",
            ).concat(self.detail.as_str()),
            RegistrationErrorKind::ProofTimeout => String::from_str(
                "Asset lock proof did not arrive in time",
            ),
            RegistrationErrorKind::Funding(FundingError::AmountOverflow) => String::from_str(
                "Amount and fee exceed the largest amount",
            ),
            RegistrationErrorKind::Funding(FundingError::InsufficientFunds) => String::from_str(
                "Not enough funds in the wallet",
            ),
            RegistrationErrorKind::Funding(FundingError::UtxoNotOwned) => String::from_str(
                "The wallet does not hold the unspent output",
            ),
            RegistrationErrorKind::Funding(FundingError::UtxoMismatch) => String::from_str(
                "The unspent output is not as the wallet holds it",
            ),
            RegistrationErrorKind::Funding(FundingError::UtxoReserved) => String::from_str(
                "The unspent output is in use by another transaction",
            ),
            _ => self.detail.clone(),
        }
    }
}

/// Why the platform did not accept a registration.
#[derive(Debug, PartialEq, Eq)]
pub struct SubmissionFailure {
    /// The platform answered that it speaks another protocol version.
    pub protocol_version_mismatch: bool,
    /// The words of the platform.
    pub message: String,
    /// The transition that was sent, written out.
    pub transition: String,
}

pub struct SubmissionFailureView {
    pub protocol_version_mismatch: bool,
    pub message: Seq<char>,
    pub transition: Seq<char>,
}

impl View for SubmissionFailure {
    type V = SubmissionFailureView;

    open spec fn view(&self) -> SubmissionFailureView {
        SubmissionFailureView {
            protocol_version_mismatch: self.protocol_version_mismatch,
            message: self.message@,
            transition: self.transition@,
        }
    }
}

/// What a registration waits for.
#[derive(Clone, Copy, Debug, PartialEq, Eq, Structural)]
pub enum RegistrationPhase {
    /// Nothing has been asked yet.
    Created,
    /// The platform has been asked for its metadata.
    AwaitingMetadata,
    /// The node has been asked what it knows of the funding transaction.
    AwaitingTransactionInfo,
    /// The node has been asked for the unspent outputs of the wallet.
    AwaitingUtxoReload,
    /// The signer has been asked to sign the funding transaction.
    AwaitingSignature,
    /// The node has been asked to broadcast the funding transaction.
    AwaitingBroadcast,
    /// The proof of the funding transaction has not come yet.
    AwaitingProof,
    /// The platform has been asked whether the identity exists.
    AwaitingIdentityCheck,
    /// The registration has been sent to the platform.
    AwaitingSubmission,
    /// The platform has accepted the registration.
    Registered,
    /// The registration has failed.
    Failed,
}

/// What the registration asks of its surroundings next.
#[derive(Debug, PartialEq, Eq)]
pub enum RegistrationAction {
    /// Ask the platform for its metadata.
    FetchMetadata,
    /// Ask the node what it knows of this transaction.
    QueryTransaction(Txid),
    /// Ask the node for the unspent outputs of the wallet's addresses.
    ReloadUtxos,
    /// Sign the funding transaction that spends these outputs.
    Sign(AssetLockFunding),
    /// Broadcast the signed funding transaction with this id.
    Broadcast(Txid),
    /// Let this many milliseconds pass, then report back.
    Sleep(u64),
    /// Derive the id of the identity from the proof and ask the platform
    /// whether the identity exists.
    CheckIdentity(AssetLockProof),
    /// Send the registration of this identity, with this proof. The keys
    /// that the identity is registered with are those of its record. What
    /// signs the registration is the key of the funding transaction that
    /// the proof is of: whoever signed that transaction keeps its key
    /// under the transaction's id.
    Submit(Identity, AssetLockProof),
    /// Tell the caller that the identity is registered.
    ReportSuccess(QualifiedIdentity),
    /// Tell the caller why the registration failed.
    ReportFailure(RegistrationError),
    /// The answer was not one that the registration waits for: nothing to
    /// do.
    Nothing,
}

pub enum RegistrationActionView {
    FetchMetadata,
    QueryTransaction(Txid),
    ReloadUtxos,
    Sign(AssetLockFundingView),
    Broadcast(Txid),
    Sleep(u64),
    CheckIdentity(AssetLockProofView),
    Submit(Identity, AssetLockProofView),
    ReportSuccess(QualifiedIdentityView),
    ReportFailure(RegistrationErrorView),
    Nothing,
}

impl View for RegistrationAction {
    type V = RegistrationActionView;

    open spec fn view(&self) -> RegistrationActionView {
        match self {
            RegistrationAction::FetchMetadata => RegistrationActionView::FetchMetadata,
            RegistrationAction::QueryTransaction(txid) => RegistrationActionView::QueryTransaction(
                *txid,
            ),
            RegistrationAction::ReloadUtxos => RegistrationActionView::ReloadUtxos,
            RegistrationAction::Sign(funding) => RegistrationActionView::Sign(funding@),
            RegistrationAction::Broadcast(txid) => RegistrationActionView::Broadcast(*txid),
            RegistrationAction::Sleep(interval) => RegistrationActionView::Sleep(*interval),
            RegistrationAction::CheckIdentity(held) => RegistrationActionView::CheckIdentity(held@),
            RegistrationAction::Submit(identity, held) => RegistrationActionView::Submit(
                *identity,
                held@,
            ),
            RegistrationAction::ReportSuccess(identity) => RegistrationActionView::ReportSuccess(
                identity@,
            ),
            RegistrationAction::ReportFailure(error) => RegistrationActionView::ReportFailure(
                error@,
            ),
            RegistrationAction::Nothing => RegistrationActionView::Nothing,
        }
    }
}

/// The view of an optional funding transaction.
pub open spec fn funding_option_view(funding: Option<AssetLockFunding>) -> Option<
    AssetLockFundingView,
> {
    match funding {
        Some(f) => Some(f@),
        None => None,
    }
}

/// The view of an optional identity record.
pub open spec fn identity_option_view(identity: Option<QualifiedIdentity>) -> Option<
    QualifiedIdentityView,
> {
    match identity {
        Some(i) => Some(i@),
        None => None,
    }
}

/// The view of an optional error.
pub open spec fn error_option_view(error: Option<RegistrationError>) -> Option<
    RegistrationErrorView,
> {
    match error {
        Some(e) => Some(e@),
        None => None,
    }
}

/// One attempt to register an identity.
#[derive(Debug, PartialEq, Eq)]
pub struct Registration {
    /// What the user asked for.
    pub info: IdentityRegistrationInfo,
    /// The network the wallet is on.
    pub network: Network,
    /// The fee of the funding transaction.
    pub fee: u64,
    /// How long to wait for the proof at most, in milliseconds; any time
    /// where none is given.
    pub proof_timeout_ms: Option<u64>,
    /// What the registration waits for.
    pub phase: RegistrationPhase,
    /// The height up to which the platform has seen chain locks.
    pub core_chain_locked_height: u32,
    /// The unspent outputs have been asked for anew once.
    pub reloaded: bool,
    /// The funding transaction under construction.
    pub funding: Option<AssetLockFunding>,
    /// The id of the funding transaction.
    pub txid: Option<Txid>,
    /// The proof to register with.
    pub lock_proof: Option<AssetLockProof>,
    /// How long the registration has waited for the proof, in milliseconds.
    pub waited_ms: u64,
    /// The record of the identity.
    pub identity: Option<QualifiedIdentity>,
    /// How often the registration has been sent.
    pub submissions: u32,
    /// Why the registration failed.
    pub error: Option<RegistrationError>,
}

pub struct RegistrationView {
    pub info: IdentityRegistrationInfoView,
    pub network: Network,
    pub fee: u64,
    pub proof_timeout_ms: Option<u64>,
    pub phase: RegistrationPhase,
    pub core_chain_locked_height: u32,
    pub reloaded: bool,
    pub funding: Option<AssetLockFundingView>,
    pub txid: Option<Txid>,
    pub lock_proof: Option<AssetLockProofView>,
    pub waited_ms: u64,
    pub identity: Option<QualifiedIdentityView>,
    pub submissions: u32,
    pub error: Option<RegistrationErrorView>,
}

impl View for Registration {
    type V = RegistrationView;

    open spec fn view(&self) -> RegistrationView {
        RegistrationView {
            info: self.info@,
            network: self.network,
            fee: self.fee,
            proof_timeout_ms: self.proof_timeout_ms,
            phase: self.phase,
            core_chain_locked_height: self.core_chain_locked_height,
            reloaded: self.reloaded,
            funding: funding_option_view(self.funding),
            txid: self.txid,
            lock_proof: proof_option_view(self.lock_proof),
            waited_ms: self.waited_ms,
            identity: identity_option_view(self.identity),
            submissions: self.submissions,
            error: error_option_view(self.error),
        }
    }
}

impl Registration {
    /// A registration that has not begun.
    pub fn new(
        info: IdentityRegistrationInfo,
        network: Network,
        fee: u64,
        proof_timeout_ms: Option<u64>,
    ) -> (registration: Registration)
        ensures
            registration@ == (RegistrationView {
                info: info@,
                network,
                fee,
                proof_timeout_ms,
                phase: RegistrationPhase::Created,
                core_chain_locked_height: 0,
                reloaded: false,
                funding: None,
                txid: None,
                lock_proof: None,
                waited_ms: 0,
                identity: None,
                submissions: 0,
                error: None,
            }),
    {
        Registration {
            info,
            network,
            fee,
            proof_timeout_ms,
            phase: RegistrationPhase::Created,
            core_chain_locked_height: 0,
            reloaded: false,
            funding: None,
            txid: None,
            lock_proof: None,
            waited_ms: 0,
            identity: None,
            submissions: 0,
            error: None,
        }
    }

    /// The registration has ended, well or not.
    pub fn is_finished(&self) -> (finished: bool)
        ensures
            finished == (self.phase == RegistrationPhase::Registered || self.phase
                == RegistrationPhase::Failed),
    {
        match self.phase {
            RegistrationPhase::Registered => true,
            RegistrationPhase::Failed => true,
            _ => false,
        }
    }
}


/// An answer of the surroundings to what the registration asked.
#[derive(Debug, PartialEq, Eq)]
pub enum RegistrationEvent {
    /// The registration is to begin.
    Start,
    /// The platform's metadata: the height up to which it has seen chain
    /// locks, or why it could not be had.
    Metadata(Result<u32, String>),
    /// What the node reports of the funding transaction, or why it does
    /// not.
    TransactionInfo(Result<RawTransactionInfo, String>),
    /// The unspent outputs of the wallet's addresses as the node has them,
    /// or why it does not give them.
    UtxosReloaded(Result<Vec<Utxo>, String>),
    /// The id of the signed funding transaction, or why it was not signed.
    Signed(Result<Txid, String>),
    /// The node has taken the funding transaction, or why it has not.
    Broadcast(Result<(), String>),
    /// The time asked for has passed.
    Woke,
    /// The id of the identity that the proof gives, and whether the
    /// platform holds that identity; or why the platform does not say.
    IdentityChecked(Result<(Identifier, bool), String>),
    /// The identity as the platform has registered it, or why it has not.
    Submitted(Result<Identity, SubmissionFailure>),
}

pub enum RegistrationEventView {
    Start,
    Metadata(Result<u32, Seq<char>>),
    TransactionInfo(Result<RawTransactionInfo, Seq<char>>),
    UtxosReloaded(Result<Seq<UtxoView>, Seq<char>>),
    Signed(Result<Txid, Seq<char>>),
    Broadcast(Result<(), Seq<char>>),
    Woke,
    IdentityChecked(Result<(Identifier, bool), Seq<char>>),
    Submitted(Result<Identity, SubmissionFailureView>),
}

impl View for RegistrationEvent {
    type V = RegistrationEventView;

    open spec fn view(&self) -> RegistrationEventView {
        match self {
            RegistrationEvent::Start => RegistrationEventView::Start,
            RegistrationEvent::Metadata(answer) => RegistrationEventView::Metadata(
                words_result_view(*answer),
            ),
            RegistrationEvent::TransactionInfo(answer) => RegistrationEventView::TransactionInfo(
                words_result_view(*answer),
            ),
            RegistrationEvent::UtxosReloaded(answer) => RegistrationEventView::UtxosReloaded(
                utxos_result_view(*answer),
            ),
            RegistrationEvent::Signed(answer) => RegistrationEventView::Signed(
                words_result_view(*answer),
            ),
            RegistrationEvent::Broadcast(answer) => RegistrationEventView::Broadcast(
                words_result_view(*answer),
            ),
            RegistrationEvent::Woke => RegistrationEventView::Woke,
            RegistrationEvent::IdentityChecked(answer) => RegistrationEventView::IdentityChecked(
                words_result_view(*answer),
            ),
            RegistrationEvent::Submitted(answer) => RegistrationEventView::Submitted(
                submission_result_view(*answer),
            ),
        }
    }
}

/// The view of the node's answer to the question for unspent outputs.
pub open spec fn utxos_result_view(answer: Result<Vec<Utxo>, String>) -> Result<
    Seq<UtxoView>,
    Seq<char>,
> {
    match answer {
        Ok(fresh) => Ok(views(fresh@)),
        Err(words) => Err(words@),
    }
}

/// The view of the platform's answer to a registration.
pub open spec fn submission_result_view(answer: Result<Identity, SubmissionFailure>) -> Result<
    Identity,
    SubmissionFailureView,
> {
    match answer {
        Ok(identity) => Ok(identity),
        Err(failure) => Err(failure@),
    }
}

/// What a step leaves behind: the registration, the wallet, the finality
/// registry and the tables after it, and what it asks next.
pub struct StepView {
    pub registration: RegistrationView,
    pub wallet: WalletView,
    pub tracker: TrackerMap,
    pub db: DatabaseView,
    pub action: RegistrationActionView,
}

/// The step that ends the registration with a failure. Nothing but the
/// registration changes.
pub open spec fn spec_fail(
    registration: RegistrationView,
    wallet: WalletView,
    tracker: TrackerMap,
    db: DatabaseView,
    kind: RegistrationErrorKind,
    detail: Seq<char>,
) -> StepView {
    let error = RegistrationErrorView { kind, detail };
    StepView {
        registration: RegistrationView {
            phase: RegistrationPhase::Failed,
            error: Some(error),
            ..registration
        },
        wallet,
        tracker,
        db,
        action: RegistrationActionView::ReportFailure(error),
    }
}

/// The step that changes nothing and asks nothing.
pub open spec fn spec_ignore(
    registration: RegistrationView,
    wallet: WalletView,
    tracker: TrackerMap,
    db: DatabaseView,
) -> StepView {
    StepView { registration, wallet, tracker, db, action: RegistrationActionView::Nothing }
}

/// The step after a funding transaction was planned, or could not be: a
/// planned transaction goes to the signer, and its inputs are reserved in
/// the wallet.
/// Where it could not be planned from the balance of the wallet and the
/// unspent outputs have not been asked for anew yet, they are asked for;
/// otherwise the registration fails.
pub open spec fn spec_after_planning(
    registration: RegistrationView,
    wallet: WalletView,
    tracker: TrackerMap,
    db: DatabaseView,
    planned: Result<AssetLockFundingView, FundingError>,
    may_reload: bool,
) -> StepView {
    match planned {
        Ok(funding) => StepView {
            registration: RegistrationView {
                phase: RegistrationPhase::AwaitingSignature,
                funding: Some(funding),
                ..registration
            },
            wallet: WalletView {
                utxos: with_marks(wallet.utxos, funding.outpoints(), true),
                ..wallet
            },
            tracker,
            db,
            action: RegistrationActionView::Sign(funding),
        },
        Err(e) => if may_reload {
            StepView {
                registration: RegistrationView {
                    phase: RegistrationPhase::AwaitingUtxoReload,
                    reloaded: true,
                    ..registration
                },
                wallet,
                tracker,
                db,
                action: RegistrationActionView::ReloadUtxos,
            }
        } else {
            spec_fail(
                registration,
                wallet,
                tracker,
                db,
                RegistrationErrorKind::Funding(e),
                Seq::empty(),
            )
        },
    }
}

/// The step on the platform's metadata: the funding begins as the user
/// asked.
pub open spec fn spec_on_metadata(
    registration: RegistrationView,
    wallet: WalletView,
    tracker: TrackerMap,
    db: DatabaseView,
    answer: Result<u32, Seq<char>>,
) -> StepView {
    match answer {
        Err(words) => spec_fail(
            registration,
            wallet,
            tracker,
            db,
            RegistrationErrorKind::Metadata,
            words,
        ),
        Ok(height) => {
            let known = RegistrationView { core_chain_locked_height: height, ..registration };
            match registration.info.identity_funding_method {
                RegisterIdentityFundingMethodView::UseAssetLock(address, held, txid) => {
                    if !wallet.knows(address) {
                        spec_fail(
                            known,
                            wallet,
                            tracker,
                            db,
                            RegistrationErrorKind::AssetLockNotValidForWallet,
                            Seq::empty(),
                        )
                    } else if held is Instant {
                        StepView {
                            registration: RegistrationView {
                                phase: RegistrationPhase::AwaitingTransactionInfo,
                                txid: Some(txid),
                                lock_proof: Some(held),
                                ..known
                            },
                            wallet,
                            tracker,
                            db,
                            action: RegistrationActionView::QueryTransaction(txid),
                        }
                    } else {
                        StepView {
                            registration: RegistrationView {
                                phase: RegistrationPhase::AwaitingIdentityCheck,
                                txid: Some(txid),
                                lock_proof: Some(held),
                                ..known
                            },
                            wallet,
                            tracker,
                            db,
                            action: RegistrationActionView::CheckIdentity(held),
                        }
                    }
                },
                RegisterIdentityFundingMethodView::FundWithWallet(amount, index) => {
                    spec_after_planning(
                        known,
                        wallet,
                        tracker,
                        db,
                        spec_funding(wallet, amount, registration.fee, index),
                        true,
                    )
                },
                RegisterIdentityFundingMethodView::FundWithUtxo(utxo, tx_out, address, index) => {
                    spec_after_planning(
                        known,
                        wallet,
                        tracker,
                        db,
                        spec_funding_for_utxo(wallet, utxo, tx_out, address, registration.fee, index),
                        false,
                    )
                },
            }
        },
    }
}

/// The step on the node's report of the funding transaction: the proof to
/// register with is chosen, and the platform is asked whether the identity
/// exists.
pub open spec fn spec_on_transaction_info(
    registration: RegistrationView,
    wallet: WalletView,
    tracker: TrackerMap,
    db: DatabaseView,
    answer: Result<RawTransactionInfo, Seq<char>>,
) -> StepView {
    match answer {
        Err(words) => spec_fail(
            registration,
            wallet,
            tracker,
            db,
            RegistrationErrorKind::TransactionInfo,
            words,
        ),
        Ok(info) => {
            let chosen = spec_proof_for_registration(
                registration.lock_proof->0,
                registration.txid->0,
                Some(info),
                registration.core_chain_locked_height,
            );
            StepView {
                registration: RegistrationView {
                    phase: RegistrationPhase::AwaitingIdentityCheck,
                    lock_proof: Some(chosen),
                    ..registration
                },
                wallet,
                tracker,
                db,
                action: RegistrationActionView::CheckIdentity(chosen),
            }
        },
    }
}

/// The step on the unspent outputs that the node gave: the wallet and the
/// tables take them, and the funding transaction is planned once more.
pub open spec fn spec_on_utxos_reloaded(
    registration: RegistrationView,
    wallet: WalletView,
    tracker: TrackerMap,
    db: DatabaseView,
    answer: Result<Seq<UtxoView>, Seq<char>>,
) -> StepView {
    match answer {
        Err(words) => spec_fail(
            registration,
            wallet,
            tracker,
            db,
            RegistrationErrorKind::UtxoReload,
            words,
        ),
        Ok(fresh) => {
            let reloaded = crate::wallet::spec_reload_utxos(wallet, fresh);
            let stored = DatabaseView {
                utxos: crate::database::spec_store_utxos(db.utxos, fresh, registration.network),
                ..db
            };
            match registration.info.identity_funding_method {
                RegisterIdentityFundingMethodView::FundWithWallet(amount, index) => {
                    spec_after_planning(
                        registration,
                        reloaded,
                        tracker,
                        stored,
                        spec_funding(reloaded, amount, registration.fee, index),
                        false,
                    )
                },
                _ => spec_ignore(registration, wallet, tracker, db),
            }
        },
    }
}

/// The step on the signer's answer: the signed transaction is registered as
/// waiting for its proof, and goes to the node. Where it was not signed,
/// its inputs are given back to the wallet.
pub open spec fn spec_on_signed(
    registration: RegistrationView,
    wallet: WalletView,
    tracker: TrackerMap,
    db: DatabaseView,
    answer: Result<Txid, Seq<char>>,
) -> StepView {
    match answer {
        Err(words) => spec_fail(
            registration,
            WalletView {
                utxos: with_marks(wallet.utxos, registration.funding->0.outpoints(), false),
                ..wallet
            },
            tracker,
            db,
            RegistrationErrorKind::Signing,
            words,
        ),
        Ok(txid) => StepView {
            registration: RegistrationView {
                phase: RegistrationPhase::AwaitingBroadcast,
                txid: Some(txid),
                ..registration
            },
            wallet,
            tracker: if tracker.dom().contains(txid) {
                tracker
            } else {
                tracker.insert(txid, None)
            },
            db,
            action: RegistrationActionView::Broadcast(txid),
        },
    }
}

/// The step of one look at the finality registry.
pub open spec fn spec_look_for_proof(
    registration: RegistrationView,
    wallet: WalletView,
    tracker: TrackerMap,
    db: DatabaseView,
) -> StepView {
    match spec_await_resolution(
        tracker,
        registration.txid->0,
        POLL_INTERVAL_MS,
        registration.waited_ms,
        registration.proof_timeout_ms,
    ) {
        ResolutionView::Resolved(resolution) => StepView {
            registration: RegistrationView {
                phase: RegistrationPhase::AwaitingIdentityCheck,
                lock_proof: Some(resolution),
                ..registration
            },
            wallet,
            tracker,
            db,
            action: RegistrationActionView::CheckIdentity(resolution),
        },
        ResolutionView::Wait(interval) => StepView {
            registration: RegistrationView { phase: RegistrationPhase::AwaitingProof, ..registration },
            wallet,
            tracker,
            db,
            action: RegistrationActionView::Sleep(interval),
        },
        ResolutionView::TimedOut => spec_fail(
            registration,
            wallet,
            tracker,
            db,
            RegistrationErrorKind::ProofTimeout,
            Seq::empty(),
        ),
    }
}

/// The step on the node's answer to the broadcast. Where the node took the
/// transaction, the outputs it spends leave the wallet and the tables
/// together, and the registry is looked at for the first time. Where it
/// did not, the transaction no longer waits for a proof and its inputs
/// are given back: the funds can be spent again.
pub open spec fn spec_on_broadcast(
    registration: RegistrationView,
    wallet: WalletView,
    tracker: TrackerMap,
    db: DatabaseView,
    answer: Result<(), Seq<char>>,
) -> StepView {
    let spent = registration.funding->0.outpoints();
    let txid = registration.txid->0;
    match answer {
        Err(words) => spec_fail(
            registration,
            WalletView { utxos: with_marks(wallet.utxos, spent, false), ..wallet },
            if spec_status(tracker, txid) == FinalityStatus::Pending {
                tracker.remove(txid)
            } else {
                tracker
            },
            db,
            RegistrationErrorKind::Broadcast,
            words,
        ),
        Ok(()) => spec_look_for_proof(
            RegistrationView { waited_ms: 0, ..registration },
            spec_remove_utxos(wallet, spent),
            tracker,
            DatabaseView {
                utxos: without_spent_rows(db.utxos, spent, registration.network),
                ..db
            },
        ),
    }
}

/// The time waited after one more interval, as far as 64 bits hold it.
pub open spec fn spec_waited_longer(waited_ms: u64) -> u64 {
    if waited_ms + POLL_INTERVAL_MS > u64::MAX {
        u64::MAX
    } else {
        (waited_ms + POLL_INTERVAL_MS) as u64
    }
}

/// The step after the time asked for has passed: the registry is looked at
/// again.
pub open spec fn spec_on_woke(
    registration: RegistrationView,
    wallet: WalletView,
    tracker: TrackerMap,
    db: DatabaseView,
) -> StepView {
    spec_look_for_proof(
        RegistrationView { waited_ms: spec_waited_longer(registration.waited_ms), ..registration },
        wallet,
        tracker,
        db,
    )
}

/// The record of the identity before its registration is sent.
pub open spec fn spec_pending_identity(
    registration: RegistrationView,
    wallet: WalletView,
    id: Identifier,
) -> QualifiedIdentityView {
    QualifiedIdentityView {
        identity: Identity { id, balance: 0, revision: 0 },
        alias: spec_alias_from_input(registration.info.alias_input),
        private_keys: registration.info.keys,
        associated_wallet: Some(wallet.seed_hash()),
        wallet_index: Some(registration.info.wallet_identity_index),
        status: IdentityStatus::PendingCreation,
    }
}

/// The step on the platform's answer whether the identity exists. Where it
/// does not, the record of the identity, pending, and the identity that
/// the funding transaction is about to fund are written to the tables
/// before the registration is sent.
pub open spec fn spec_on_identity_checked(
    registration: RegistrationView,
    wallet: WalletView,
    tracker: TrackerMap,
    db: DatabaseView,
    answer: Result<(Identifier, bool), Seq<char>>,
) -> StepView {
    match answer {
        Err(words) => spec_fail(
            registration,
            wallet,
            tracker,
            db,
            RegistrationErrorKind::FetchIdentity,
            words,
        ),
        Ok(found) => if found.1 {
            spec_fail(
                registration,
                wallet,
                tracker,
                db,
                RegistrationErrorKind::IdentityAlreadyExists,
                Seq::empty(),
            )
        } else {
            let record = spec_pending_identity(registration, wallet, found.0);
            let written = spec_insert_identity(
                db,
                record,
                Some((wallet.seed_hash(), registration.info.wallet_identity_index)),
                registration.network,
            );
            StepView {
                registration: RegistrationView {
                    phase: RegistrationPhase::AwaitingSubmission,
                    identity: Some(record),
                    submissions: 1,
                    ..registration
                },
                wallet,
                tracker,
                db: DatabaseView {
                    asset_lock_transactions: with_asset_lock_identity(
                        written.asset_lock_transactions,
                        registration.txid->0,
                        found.0,
                        false,
                    ),
                    ..written
                },
                action: RegistrationActionView::Submit(record.identity, registration.lock_proof->0),
            }
        },
    }
}

/// The words with which a registration fails that the platform did not
/// accept: the words of the platform, and the transition that was sent.
pub open spec fn spec_submission_failure_words(failure: SubmissionFailureView) -> Seq<char> {
    "error: "@ + failure.message + ", transaction is "@ + failure.transition
}

/// The step on the platform's answer to the registration.
///
/// Where the platform accepted it, the record of the identity takes the
/// identity as registered and the status that asks for a fresh look; the
/// wallet drops the funding transaction from those not used and holds the
/// identity under its index; the tables take all of that.
///
/// Where the platform answered that it speaks another protocol version, and
/// the registration has been sent only once, it is sent once more, as it
/// was. Any other failure ends the registration: the record of the
/// identity is written with the status failed, and the caller is given the
/// words of the platform with the transition that was sent.
pub open spec fn spec_on_submitted(
    registration: RegistrationView,
    wallet: WalletView,
    tracker: TrackerMap,
    db: DatabaseView,
    answer: Result<Identity, SubmissionFailureView>,
) -> StepView {
    let record = registration.identity->0;
    let txid = registration.txid->0;
    let index = registration.info.wallet_identity_index;
    let wallet_and_index = Some((wallet.seed_hash(), index));
    match answer {
        Ok(registered) => {
            let confirmed = QualifiedIdentityView {
                identity: registered,
                status: IdentityStatus::Unknown,
                ..record
            };
            let written = spec_insert_identity(db, confirmed, wallet_and_index, registration.network);
            StepView {
                registration: RegistrationView {
                    phase: RegistrationPhase::Registered,
                    identity: Some(confirmed),
                    ..registration
                },
                wallet: WalletView {
                    unused_asset_locks: without_lock(wallet.unused_asset_locks, txid),
                    identities: wallet.identities.insert(index, record.identity),
                    ..wallet
                },
                tracker,
                db: DatabaseView {
                    asset_lock_transactions: with_asset_lock_identity(
                        written.asset_lock_transactions,
                        txid,
                        record.identity.id,
                        true,
                    ),
                    ..written
                },
                action: RegistrationActionView::ReportSuccess(confirmed),
            }
        },
        Err(failure) => if failure.protocol_version_mismatch && registration.submissions
            < MAX_SUBMISSIONS {
            StepView {
                registration: RegistrationView {
                    submissions: (registration.submissions + 1) as u32,
                    ..registration
                },
                wallet,
                tracker,
                db,
                action: RegistrationActionView::Submit(record.identity, registration.lock_proof->0),
            }
        } else {
            let failed = QualifiedIdentityView {
                status: record.status.spec_updated(IdentityStatus::FailedCreation),
                ..record
            };
            let error = RegistrationErrorView {
                kind: RegistrationErrorKind::Submission,
                detail: spec_submission_failure_words(failure),
            };
            StepView {
                registration: RegistrationView {
                    phase: RegistrationPhase::Failed,
                    identity: Some(failed),
                    error: Some(error),
                    ..registration
                },
                wallet,
                tracker,
                db: spec_insert_identity(db, failed, wallet_and_index, registration.network),
                action: RegistrationActionView::ReportFailure(error),
            }
        },
    }
}

/// What the registration holds in each phase: the answers that a phase
/// waits for are answers to a question that the registration has asked
/// with what it holds.
pub open spec fn registration_wf(registration: RegistrationView) -> bool {
    match registration.phase {
        RegistrationPhase::AwaitingTransactionInfo => registration.txid is Some
            && registration.lock_proof is Some,
        RegistrationPhase::AwaitingSignature => registration.funding is Some,
        RegistrationPhase::AwaitingBroadcast => registration.funding is Some && registration.txid
            is Some,
        RegistrationPhase::AwaitingProof => registration.txid is Some,
        RegistrationPhase::AwaitingIdentityCheck => registration.txid is Some
            && registration.lock_proof is Some,
        RegistrationPhase::AwaitingSubmission => registration.txid is Some
            && registration.lock_proof is Some && registration.identity is Some
            && registration.identity->0.status == IdentityStatus::PendingCreation
            && 1 <= registration.submissions <= MAX_SUBMISSIONS,
        RegistrationPhase::Registered => registration.identity is Some
            && registration.identity->0.status == IdentityStatus::Unknown,
        RegistrationPhase::Failed => registration.error is Some,
        _ => true,
    }
}

/// The step of a registration: what an answer does in the phase that the
/// registration is in. An answer that the phase does not wait for changes
/// nothing, and neither does any answer to a registration that does not
/// hold what its phase needs.
pub open spec fn spec_step(
    registration: RegistrationView,
    wallet: WalletView,
    tracker: TrackerMap,
    db: DatabaseView,
    event: RegistrationEventView,
) -> StepView {
    if !registration_wf(registration) {
        spec_ignore(registration, wallet, tracker, db)
    } else {
        match (registration.phase, event) {
            (RegistrationPhase::Created, RegistrationEventView::Start) => StepView {
                registration: RegistrationView {
                    phase: RegistrationPhase::AwaitingMetadata,
                    ..registration
                },
                wallet,
                tracker,
                db,
                action: RegistrationActionView::FetchMetadata,
            },
            (RegistrationPhase::AwaitingMetadata, RegistrationEventView::Metadata(answer)) => {
                spec_on_metadata(registration, wallet, tracker, db, answer)
            },
            (
                RegistrationPhase::AwaitingTransactionInfo,
                RegistrationEventView::TransactionInfo(answer),
            ) => spec_on_transaction_info(registration, wallet, tracker, db, answer),
            (RegistrationPhase::AwaitingUtxoReload, RegistrationEventView::UtxosReloaded(answer)) => {
                spec_on_utxos_reloaded(registration, wallet, tracker, db, answer)
            },
            (RegistrationPhase::AwaitingSignature, RegistrationEventView::Signed(answer)) => {
                spec_on_signed(registration, wallet, tracker, db, answer)
            },
            (RegistrationPhase::AwaitingBroadcast, RegistrationEventView::Broadcast(answer)) => {
                spec_on_broadcast(registration, wallet, tracker, db, answer)
            },
            (RegistrationPhase::AwaitingProof, RegistrationEventView::Woke) => spec_on_woke(
                registration,
                wallet,
                tracker,
                db,
            ),
            (
                RegistrationPhase::AwaitingIdentityCheck,
                RegistrationEventView::IdentityChecked(answer),
            ) => spec_on_identity_checked(registration, wallet, tracker, db, answer),
            (RegistrationPhase::AwaitingSubmission, RegistrationEventView::Submitted(answer)) => {
                spec_on_submitted(registration, wallet, tracker, db, answer)
            },
            _ => spec_ignore(registration, wallet, tracker, db),
        }
    }
}


/// What a step has left behind.
pub open spec fn step_view(
    registration: Registration,
    wallet: Wallet,
    tracker: FinalityTracker,
    db: Database,
    action: RegistrationAction,
) -> StepView {
    StepView {
        registration: registration@,
        wallet: wallet@,
        tracker: tracker@,
        db: db@,
        action: action@,
    }
}

impl Registration {
    /// Tells whether the registration holds what its phase needs.
    pub fn is_well_formed(&self) -> (well_formed: bool)
        ensures
            well_formed == registration_wf(self@),
    {
        match self.phase {
            RegistrationPhase::AwaitingTransactionInfo => self.txid.is_some()
                && self.lock_proof.is_some(),
            RegistrationPhase::AwaitingSignature => self.funding.is_some(),
            RegistrationPhase::AwaitingBroadcast => self.funding.is_some() && self.txid.is_some(),
            RegistrationPhase::AwaitingProof => self.txid.is_some(),
            RegistrationPhase::AwaitingIdentityCheck => self.txid.is_some()
                && self.lock_proof.is_some(),
            RegistrationPhase::AwaitingSubmission => match &self.identity {
                Some(identity) => self.txid.is_some() && self.lock_proof.is_some()
                    && identity.status == IdentityStatus::PendingCreation && 1 <= self.submissions
                    && self.submissions <= MAX_SUBMISSIONS,
                None => false,
            },
            RegistrationPhase::Registered => match &self.identity {
                Some(identity) => identity.status == IdentityStatus::Unknown,
                None => false,
            },
            RegistrationPhase::Failed => self.error.is_some(),
            _ => true,
        }
    }

    /// Ends the registration with a failure.
    fn fail(&mut self, kind: RegistrationErrorKind, detail: String) -> (action: RegistrationAction)
        ensures
            final(self)@ == (RegistrationView {
                phase: RegistrationPhase::Failed,
                error: Some(RegistrationErrorView { kind, detail: detail@ }),
                ..old(self)@
            }),
            action@ == RegistrationActionView::ReportFailure(
                RegistrationErrorView { kind, detail: detail@ },
            ),
            registration_wf(final(self)@),
    {
        let error = RegistrationError { kind, detail };
        let report = error.clone();
        self.phase = RegistrationPhase::Failed;
        self.error = Some(error);
        RegistrationAction::ReportFailure(report)
    }

    /// Takes the outcome of planning the funding transaction.
    fn after_planning(
        &mut self,
        planned: Result<AssetLockFunding, FundingError>,
        may_reload: bool,
    ) -> (action: RegistrationAction)
        ensures
            registration_wf(final(self)@),
            match funding_result_view(planned) {
                Ok(funding) => final(self)@ == (RegistrationView {
                    phase: RegistrationPhase::AwaitingSignature,
                    funding: Some(funding),
                    ..old(self)@
                }) && action@ == RegistrationActionView::Sign(funding),
                Err(e) => if may_reload {
                    final(self)@ == (RegistrationView {
                        phase: RegistrationPhase::AwaitingUtxoReload,
                        reloaded: true,
                        ..old(self)@
                    }) && action@ == RegistrationActionView::ReloadUtxos
                } else {
                    final(self)@ == (RegistrationView {
                        phase: RegistrationPhase::Failed,
                        error: Some(
                            RegistrationErrorView {
                                kind: RegistrationErrorKind::Funding(e),
                                detail: Seq::empty(),
                            },
                        ),
                        ..old(self)@
                    }) && action@ == RegistrationActionView::ReportFailure(
                        RegistrationErrorView {
                            kind: RegistrationErrorKind::Funding(e),
                            detail: Seq::empty(),
                        },
                    )
                },
            },
    {
        match planned {
            Ok(funding) => {
                let to_sign = funding.clone();
                self.phase = RegistrationPhase::AwaitingSignature;
                self.funding = Some(funding);
                RegistrationAction::Sign(to_sign)
            },
            Err(e) => {
                if may_reload {
                    self.phase = RegistrationPhase::AwaitingUtxoReload;
                    self.reloaded = true;
                    RegistrationAction::ReloadUtxos
                } else {
                    let action = self.fail(RegistrationErrorKind::Funding(e), String::new());
                    action
                }
            },
        }
    }

    /// Takes the platform's metadata and begins the funding.
    fn on_metadata(
        &mut self,
        wallet: &mut Wallet,
        tracker: &FinalityTracker,
        db: &Database,
        answer: Result<u32, String>,
    ) -> (action: RegistrationAction)
        requires
            old(wallet).wf(),
            old(self).phase == RegistrationPhase::AwaitingMetadata,
        ensures
            final(wallet).wf(),
            registration_wf(final(self)@),
            step_view(*final(self), *final(wallet), *tracker, *db, action) == spec_on_metadata(
                old(self)@,
                old(wallet)@,
                tracker@,
                db@,
                words_result_view(answer),
            ),
    {
        let height = match answer {
            Err(words) => {
                return self.fail(RegistrationErrorKind::Metadata, words);
            },
            Ok(height) => height,
        };
        self.core_chain_locked_height = height;
        match &self.info.identity_funding_method {
            RegisterIdentityFundingMethod::UseAssetLock(address, held, txid) => {
                let txid = *txid;
                if !wallet.knows_address(address) {
                    let action = self.fail(
                        RegistrationErrorKind::AssetLockNotValidForWallet,
                        String::new(),
                    );
                    return action;
                }
                let instant = held.is_instant();
                let kept = held.clone();
                let asked = held.clone();
                self.txid = Some(txid);
                self.lock_proof = Some(kept);
                if instant {
                    self.phase = RegistrationPhase::AwaitingTransactionInfo;
                    RegistrationAction::QueryTransaction(txid)
                } else {
                    self.phase = RegistrationPhase::AwaitingIdentityCheck;
                    RegistrationAction::CheckIdentity(asked)
                }
            },
            RegisterIdentityFundingMethod::FundWithWallet(amount, index) => {
                let planned = wallet.registration_asset_lock_transaction(*amount, self.fee, *index);
                self.after_planning(planned, true)
            },
            RegisterIdentityFundingMethod::FundWithUtxo(utxo, tx_out, address, index) => {
                let planned = wallet.registration_asset_lock_transaction_for_utxo(
                    *utxo,
                    tx_out,
                    *address,
                    self.fee,
                    *index,
                );
                self.after_planning(planned, false)
            },
        }
    }
}

/// The view of an answer that is a value or the words of a refusal.
pub open spec fn words_result_view<T>(answer: Result<T, String>) -> Result<T, Seq<char>> {
    match answer {
        Ok(value) => Ok(value),
        Err(words) => Err(words@),
    }
}


impl Registration {
    /// Takes the node's report of the funding transaction and chooses the
    /// proof to register with.
    fn on_transaction_info(
        &mut self,
        wallet: &Wallet,
        tracker: &FinalityTracker,
        db: &Database,
        answer: Result<RawTransactionInfo, String>,
    ) -> (action: RegistrationAction)
        requires
            old(self).phase == RegistrationPhase::AwaitingTransactionInfo,
            registration_wf(old(self)@),
        ensures
            registration_wf(final(self)@),
            step_view(*final(self), *wallet, *tracker, *db, action) == spec_on_transaction_info(
                old(self)@,
                wallet@,
                tracker@,
                db@,
                words_result_view(answer),
            ),
    {
        let info = match answer {
            Err(words) => {
                return self.fail(RegistrationErrorKind::TransactionInfo, words);
            },
            Ok(info) => info,
        };
        let txid = match self.txid {
            Some(txid) => txid,
            None => {
                return RegistrationAction::Nothing;
            },
        };
        let held = match self.lock_proof.take() {
            Some(held) => held,
            None => {
                return RegistrationAction::Nothing;
            },
        };
        let chosen = proof_for_registration(held, txid, Some(info), self.core_chain_locked_height);
        let asked = chosen.clone();
        self.lock_proof = Some(chosen);
        self.phase = RegistrationPhase::AwaitingIdentityCheck;
        RegistrationAction::CheckIdentity(asked)
    }

    /// Takes the unspent outputs that the node gave and plans the funding
    /// once more.
    fn on_utxos_reloaded(
        &mut self,
        wallet: &mut Wallet,
        tracker: &FinalityTracker,
        db: &mut Database,
        answer: Result<Vec<Utxo>, String>,
    ) -> (action: RegistrationAction)
        requires
            old(wallet).wf(),
            old(db)@.wf(),
            old(self).phase == RegistrationPhase::AwaitingUtxoReload,
        ensures
            final(wallet).wf(),
            final(db)@.wf(),
            registration_wf(final(self)@),
            step_view(*final(self), *final(wallet), *tracker, *final(db), action)
                == spec_on_utxos_reloaded(
                old(self)@,
                old(wallet)@,
                tracker@,
                old(db)@,
                utxos_result_view(answer),
            ),
    {
        let fresh = match answer {
            Err(words) => {
                return self.fail(RegistrationErrorKind::UtxoReload, words);
            },
            Ok(fresh) => fresh,
        };
        match &self.info.identity_funding_method {
            RegisterIdentityFundingMethod::FundWithWallet(amount, index) => {
                wallet.reload_utxos(&fresh);
                db.store_utxos(&fresh, &self.network);
                let planned = wallet.registration_asset_lock_transaction(*amount, self.fee, *index);
                self.after_planning(planned, false)
            },
            _ => RegistrationAction::Nothing,
        }
    }

    /// Takes the signer's answer: registers the signed transaction as waiting
    /// for its proof, or gives its inputs back.
    fn on_signed(
        &mut self,
        wallet: &mut Wallet,
        tracker: &mut FinalityTracker,
        db: &Database,
        answer: Result<Txid, String>,
    ) -> (action: RegistrationAction)
        requires
            old(wallet).wf(),
            old(tracker).wf(),
            old(self).phase == RegistrationPhase::AwaitingSignature,
            registration_wf(old(self)@),
        ensures
            final(wallet).wf(),
            final(tracker).wf(),
            registration_wf(final(self)@),
            step_view(*final(self), *final(wallet), *final(tracker), *db, action)
                == spec_on_signed(
                old(self)@,
                old(wallet)@,
                old(tracker)@,
                db@,
                words_result_view(answer),
            ),
    {
        match answer {
            Err(words) => {
                match &self.funding {
                    Some(funding) => {
                        let claimed = funding.outpoints();
                        wallet.release(&claimed);
                    },
                    None => {},
                }
                self.fail(RegistrationErrorKind::Signing, words)
            },
            Ok(txid) => {
                tracker.register_pending(txid);
                self.txid = Some(txid);
                self.phase = RegistrationPhase::AwaitingBroadcast;
                RegistrationAction::Broadcast(txid)
            },
        }
    }

    /// Looks at the finality registry once.
    fn look_for_proof(&mut self, wallet: &Wallet, tracker: &FinalityTracker, db: &Database) -> (action:
        RegistrationAction)
        requires
            tracker.wf(),
            old(self).txid is Some,
        ensures
            registration_wf(final(self)@),
            step_view(*final(self), *wallet, *tracker, *db, action) == spec_look_for_proof(
                old(self)@,
                wallet@,
                tracker@,
                db@,
            ),
    {
        let txid = match self.txid {
            Some(txid) => txid,
            None => {
                return RegistrationAction::Nothing;
            },
        };
        match tracker.await_resolution(&txid, POLL_INTERVAL_MS, self.waited_ms, self.proof_timeout_ms) {
            Resolution::Resolved(resolution) => {
                let asked = resolution.clone();
                self.lock_proof = Some(resolution);
                self.phase = RegistrationPhase::AwaitingIdentityCheck;
                RegistrationAction::CheckIdentity(asked)
            },
            Resolution::Wait(interval) => {
                self.phase = RegistrationPhase::AwaitingProof;
                RegistrationAction::Sleep(interval)
            },
            Resolution::TimedOut => self.fail(RegistrationErrorKind::ProofTimeout, String::new()),
        }
    }

    /// Takes the node's answer to the broadcast: removes what was spent, or
    /// takes back what was prepared.
    fn on_broadcast(
        &mut self,
        wallet: &mut Wallet,
        tracker: &mut FinalityTracker,
        db: &mut Database,
        answer: Result<(), String>,
    ) -> (action: RegistrationAction)
        requires
            old(wallet).wf(),
            old(tracker).wf(),
            old(db)@.wf(),
            old(self).phase == RegistrationPhase::AwaitingBroadcast,
            registration_wf(old(self)@),
        ensures
            final(wallet).wf(),
            final(tracker).wf(),
            final(db)@.wf(),
            registration_wf(final(self)@),
            step_view(*final(self), *final(wallet), *final(tracker), *final(db), action)
                == spec_on_broadcast(
                old(self)@,
                old(wallet)@,
                old(tracker)@,
                old(db)@,
                words_result_view(answer),
            ),
    {
        let spent = match &self.funding {
            Some(funding) => funding.outpoints(),
            None => {
                return RegistrationAction::Nothing;
            },
        };
        let txid = match self.txid {
            Some(txid) => txid,
            None => {
                return RegistrationAction::Nothing;
            },
        };
        match answer {
            Err(words) => {
                tracker.remove_pending(txid);
                wallet.release(&spent);
                self.fail(RegistrationErrorKind::Broadcast, words)
            },
            Ok(()) => {
                wallet.remove_utxos(&spent);
                db.drop_utxos(&spent, &self.network);
                self.waited_ms = 0;
                self.look_for_proof(wallet, tracker, db)
            },
        }
    }

    /// Counts the time waited and looks at the finality registry again.
    fn on_woke(&mut self, wallet: &Wallet, tracker: &FinalityTracker, db: &Database) -> (action:
        RegistrationAction)
        requires
            tracker.wf(),
            old(self).phase == RegistrationPhase::AwaitingProof,
            registration_wf(old(self)@),
        ensures
            registration_wf(final(self)@),
            step_view(*final(self), *wallet, *tracker, *db, action) == spec_on_woke(
                old(self)@,
                wallet@,
                tracker@,
                db@,
            ),
    {
        self.waited_ms = if self.waited_ms > u64::MAX - POLL_INTERVAL_MS {
            u64::MAX
        } else {
            self.waited_ms + POLL_INTERVAL_MS
        };
        self.look_for_proof(wallet, tracker, db)
    }

    /// Takes the platform's answer whether the identity exists, and records
    /// the identity as pending before its registration is sent.
    fn on_identity_checked(
        &mut self,
        wallet: &Wallet,
        tracker: &FinalityTracker,
        db: &mut Database,
        answer: Result<(Identifier, bool), String>,
    ) -> (action: RegistrationAction)
        requires
            old(db)@.wf(),
            old(self).phase == RegistrationPhase::AwaitingIdentityCheck,
            registration_wf(old(self)@),
        ensures
            final(db)@.wf(),
            registration_wf(final(self)@),
            step_view(*final(self), *wallet, *tracker, *final(db), action)
                == spec_on_identity_checked(
                old(self)@,
                wallet@,
                tracker@,
                old(db)@,
                words_result_view(answer),
            ),
    {
        let (id, exists) = match answer {
            Err(words) => {
                return self.fail(RegistrationErrorKind::FetchIdentity, words);
            },
            Ok(found) => found,
        };
        if exists {
            return self.fail(RegistrationErrorKind::IdentityAlreadyExists, String::new());
        }
        let txid = match self.txid {
            Some(txid) => txid,
            None => {
                return RegistrationAction::Nothing;
            },
        };
        let lock_proof = match &self.lock_proof {
            Some(held) => held.clone(),
            None => {
                return RegistrationAction::Nothing;
            },
        };
        let identity = Identity::new_with_id(id);
        let seed_hash = wallet.seed_hash();
        let index = self.info.wallet_identity_index;
        let record = QualifiedIdentity::pending(
            identity,
            &self.info.alias_input,
            &self.info.keys,
            seed_hash,
            index,
        );
        db.insert_local_qualified_identity(&record, &Some((seed_hash, index)), &self.network);
        db.set_asset_lock_identity_id_before_confirmation_by_network(&txid, &id);
        self.identity = Some(record);
        self.submissions = 1;
        self.phase = RegistrationPhase::AwaitingSubmission;
        RegistrationAction::Submit(identity, lock_proof)
    }

    /// Takes the platform's answer to the registration: records the outcome,
    /// or sends the registration once more.
    fn on_submitted(
        &mut self,
        wallet: &mut Wallet,
        tracker: &FinalityTracker,
        db: &mut Database,
        answer: Result<Identity, SubmissionFailure>,
    ) -> (action: RegistrationAction)
        requires
            old(wallet).wf(),
            old(db)@.wf(),
            old(self).phase == RegistrationPhase::AwaitingSubmission,
            registration_wf(old(self)@),
        ensures
            final(wallet).wf(),
            final(db)@.wf(),
            registration_wf(final(self)@),
            step_view(*final(self), *final(wallet), *tracker, *final(db), action)
                == spec_on_submitted(
                old(self)@,
                old(wallet)@,
                tracker@,
                old(db)@,
                submission_result_view(answer),
            ),
    {
        let txid = match self.txid {
            Some(txid) => txid,
            None => {
                return RegistrationAction::Nothing;
            },
        };
        let mut record = match self.identity.take() {
            Some(record) => record,
            None => {
                return RegistrationAction::Nothing;
            },
        };
        let seed_hash = wallet.seed_hash();
        let index = self.info.wallet_identity_index;
        let wallet_and_index = Some((seed_hash, index));
        match answer {
            Ok(registered) => {
                let local = record.identity;
                record.identity = registered;
                record.status = IdentityStatus::Unknown;
                db.insert_local_qualified_identity(&record, &wallet_and_index, &self.network);
                wallet.remove_unused_asset_lock(&txid);
                wallet.insert_identity(index, local);
                db.set_asset_lock_identity_id(&txid, &local.id);
                let reported = record.clone();
                self.identity = Some(record);
                self.phase = RegistrationPhase::Registered;
                RegistrationAction::ReportSuccess(reported)
            },
            Err(failure) => {
                if failure.protocol_version_mismatch && self.submissions < MAX_SUBMISSIONS {
                    let lock_proof = match &self.lock_proof {
                        Some(held) => held.clone(),
                        None => {
                            self.identity = Some(record);
                            return RegistrationAction::Nothing;
                        },
                    };
                    let identity = record.identity;
                    self.identity = Some(record);
                    self.submissions = self.submissions + 1;
                    RegistrationAction::Submit(identity, lock_proof)
                } else {
                    let _ = record.status.update(IdentityStatus::FailedCreation);
                    db.insert_local_qualified_identity(&record, &wallet_and_index, &self.network);
                    let detail = String::from_str("error: ").concat(
                        failure.message.as_str(),
                    ).concat(", transaction is ").concat(failure.transition.as_str());
                    self.identity = Some(record);
                    self.fail(RegistrationErrorKind::Submission, detail)
                }
            },
        }
    }

    /// Takes one answer of the surroundings: changes the registration, the
    /// wallet, the finality registry and the tables as the phase of the
    /// registration asks, and says what to ask next.
    ///
    /// The changes of one step are made together: where a step removes
    /// spent outputs, they leave the wallet and the tables in that step;
    /// where it records the status of an identity, the tables hold the
    /// status when the step returns.
    pub fn step(
        &mut self,
        wallet: &mut Wallet,
        tracker: &mut FinalityTracker,
        db: &mut Database,
        event: RegistrationEvent,
    ) -> (action: RegistrationAction)
        requires
            old(wallet).wf(),
            old(tracker).wf(),
            old(db)@.wf(),
        ensures
            final(wallet).wf(),
            final(tracker).wf(),
            final(db)@.wf(),
            registration_wf(old(self)@) ==> registration_wf(final(self)@),
            step_view(*final(self), *final(wallet), *final(tracker), *final(db), action)
                == spec_step(old(self)@, old(wallet)@, old(tracker)@, old(db)@, event@),
    {
        if !self.is_well_formed() {
            return RegistrationAction::Nothing;
        }
        match (self.phase, event) {
            (RegistrationPhase::Created, RegistrationEvent::Start) => {
                self.phase = RegistrationPhase::AwaitingMetadata;
                RegistrationAction::FetchMetadata
            },
            (RegistrationPhase::AwaitingMetadata, RegistrationEvent::Metadata(answer)) => {
                self.on_metadata(wallet, tracker, db, answer)
            },
            (
                RegistrationPhase::AwaitingTransactionInfo,
                RegistrationEvent::TransactionInfo(answer),
            ) => self.on_transaction_info(wallet, tracker, db, answer),
            (RegistrationPhase::AwaitingUtxoReload, RegistrationEvent::UtxosReloaded(answer)) => {
                self.on_utxos_reloaded(wallet, tracker, db, answer)
            },
            (RegistrationPhase::AwaitingSignature, RegistrationEvent::Signed(answer)) => {
                self.on_signed(wallet, tracker, db, answer)
            },
            (RegistrationPhase::AwaitingBroadcast, RegistrationEvent::Broadcast(answer)) => {
                self.on_broadcast(wallet, tracker, db, answer)
            },
            (RegistrationPhase::AwaitingProof, RegistrationEvent::Woke) => {
                self.on_woke(wallet, tracker, db)
            },
            (
                RegistrationPhase::AwaitingIdentityCheck,
                RegistrationEvent::IdentityChecked(answer),
            ) => self.on_identity_checked(wallet, tracker, db, answer),
            (RegistrationPhase::AwaitingSubmission, RegistrationEvent::Submitted(answer)) => {
                self.on_submitted(wallet, tracker, db, answer)
            },
            _ => RegistrationAction::Nothing,
        }
    }
}


/// When the node has taken a funding transaction, the outputs that the
/// transaction spends leave the wallet and the tables in one step: after
/// the step neither holds any of them, and both hold every other output
/// that they held before.
pub proof fn lemma_spent_outputs_leave_together(
    registration: RegistrationView,
    wallet: WalletView,
    tracker: TrackerMap,
    db: DatabaseView,
    outpoint: OutPoint,
)
    requires
        registration.phase == RegistrationPhase::AwaitingBroadcast,
        registration_wf(registration),
    ensures
        ({
            let step = spec_step(
                registration,
                wallet,
                tracker,
                db,
                RegistrationEventView::Broadcast(Ok(())),
            );
            let spent = registration.funding->0.outpoints();
            &&& step.wallet.holds(outpoint) <==> wallet.holds(outpoint) && !spent.contains(outpoint)
            &&& has_utxo_row(step.db.utxos, outpoint, registration.network) <==> has_utxo_row(
                db.utxos,
                outpoint,
                registration.network,
            ) && !spent.contains(outpoint)
            &&& spent.contains(outpoint) ==> !step.wallet.holds(outpoint) && !has_utxo_row(
                step.db.utxos,
                outpoint,
                registration.network,
            )
        }),
{
    let spent = registration.funding->0.outpoints();
    lemma_spent_outputs_are_gone(wallet.utxos, spent, outpoint);
    lemma_without_spent_rows(
        db.utxos,
        spent,
        registration.network,
        outpoint,
        registration.network,
    );
}

/// When the node has not taken a funding transaction, nothing is spent:
/// the wallet and the tables hold every output that they held, and the
/// transaction no longer waits for a proof.
pub proof fn lemma_failed_broadcast_spends_nothing(
    registration: RegistrationView,
    wallet: WalletView,
    tracker: TrackerMap,
    db: DatabaseView,
    words: Seq<char>,
    outpoint: OutPoint,
)
    requires
        registration.phase == RegistrationPhase::AwaitingBroadcast,
        registration_wf(registration),
    ensures
        ({
            let step = spec_step(
                registration,
                wallet,
                tracker,
                db,
                RegistrationEventView::Broadcast(Err(words)),
            );
            &&& step.wallet.holds(outpoint) <==> wallet.holds(outpoint)
            &&& step.db == db
            &&& spec_status(step.tracker, registration.txid->0) != FinalityStatus::Pending
            &&& step.registration.phase == RegistrationPhase::Failed
        }),
{
    let spent = registration.funding->0.outpoints();
    let released = with_marks(wallet.utxos, spent, false);
    if holds_outpoint(released, outpoint) {
        let i = choose|i: int|
            0 <= i < released.len() && (#[trigger] released[i]).outpoint == outpoint;
        assert(wallet.utxos[i].outpoint == outpoint);
    }
    if wallet.holds(outpoint) {
        let i = choose|i: int|
            0 <= i < wallet.utxos.len() && (#[trigger] wallet.utxos[i]).outpoint == outpoint;
        assert(released[i].outpoint == outpoint);
    }
}

/// When the platform refuses a registration for another reason than its
/// protocol version, the registration ends, and the tables hold the
/// identity with the status failed. No later answer changes that: a query
/// after any further step returns the same status.
pub proof fn lemma_failed_registration_is_recorded(
    registration: RegistrationView,
    wallet: WalletView,
    tracker: TrackerMap,
    db: DatabaseView,
    failure: SubmissionFailureView,
    later: RegistrationEventView,
)
    requires
        registration.phase == RegistrationPhase::AwaitingSubmission,
        registration_wf(registration),
        !failure.protocol_version_mismatch,
    ensures
        ({
            let step = spec_step(
                registration,
                wallet,
                tracker,
                db,
                RegistrationEventView::Submitted(Err(failure)),
            );
            let next = spec_step(step.registration, step.wallet, step.tracker, step.db, later);
            let id = registration.identity->0.identity.id;
            &&& step.registration.phase == RegistrationPhase::Failed
            &&& step.registration.identity->0.status == IdentityStatus::FailedCreation
            &&& step.action == RegistrationActionView::ReportFailure(
                RegistrationErrorView {
                    kind: RegistrationErrorKind::Submission,
                    detail: spec_submission_failure_words(failure),
                },
            )
            &&& stored_identity_status(step.db.identities, id, registration.network) == Some(
                IdentityStatus::FailedCreation,
            )
            &&& stored_identity_status(next.db.identities, id, registration.network) == Some(
                IdentityStatus::FailedCreation,
            )
            &&& next.registration == step.registration
        }),
{
}

/// A registration that is sent a second time after the platform answered
/// with another protocol version is sent as it was, and is not sent a
/// third time.
pub proof fn lemma_registration_is_sent_twice_at_most(
    registration: RegistrationView,
    wallet: WalletView,
    tracker: TrackerMap,
    db: DatabaseView,
    first: SubmissionFailureView,
    second: SubmissionFailureView,
)
    requires
        registration.phase == RegistrationPhase::AwaitingSubmission,
        registration_wf(registration),
        registration.submissions == 1,
        first.protocol_version_mismatch,
    ensures
        ({
            let step = spec_step(
                registration,
                wallet,
                tracker,
                db,
                RegistrationEventView::Submitted(Err(first)),
            );
            let next = spec_step(
                step.registration,
                step.wallet,
                step.tracker,
                step.db,
                RegistrationEventView::Submitted(Err(second)),
            );
            &&& step.action == RegistrationActionView::Submit(
                registration.identity->0.identity,
                registration.lock_proof->0,
            )
            &&& step.db == db
            &&& step.wallet == wallet
            &&& next.registration.phase == RegistrationPhase::Failed
            &&& next.action == RegistrationActionView::ReportFailure(
                RegistrationErrorView {
                    kind: RegistrationErrorKind::Submission,
                    detail: spec_submission_failure_words(second),
                },
            )
        }),
{
}

/// A registration that names an unspent output which the wallet does not
/// hold fails when the funding is planned: nothing is reserved, nothing is
/// registered as waiting for a proof, and nothing is broadcast.
pub proof fn lemma_unowned_utxo_fails_before_broadcast(
    registration: RegistrationView,
    wallet: WalletView,
    tracker: TrackerMap,
    db: DatabaseView,
    height: u32,
)
    requires
        registration.phase == RegistrationPhase::AwaitingMetadata,
        registration.info.identity_funding_method is FundWithUtxo,
        !wallet.holds(registration.info.identity_funding_method->FundWithUtxo_0),
    ensures
        ({
            let step = spec_step(
                registration,
                wallet,
                tracker,
                db,
                RegistrationEventView::Metadata(Ok(height)),
            );
            &&& step.registration.phase == RegistrationPhase::Failed
            &&& step.action == RegistrationActionView::ReportFailure(
                RegistrationErrorView {
                    kind: RegistrationErrorKind::Funding(FundingError::UtxoNotOwned),
                    detail: Seq::empty(),
                },
            )
            &&& step.wallet == wallet
            &&& step.tracker == tracker
            &&& step.db == db
        }),
{
}


/// Before a registration is sent to the platform, the tables hold the
/// identity with the status pending: the step that asks for the sending
/// has written it.
pub proof fn lemma_pending_is_recorded_before_submission(
    registration: RegistrationView,
    wallet: WalletView,
    tracker: TrackerMap,
    db: DatabaseView,
    id: Identifier,
)
    requires
        registration.phase == RegistrationPhase::AwaitingIdentityCheck,
        registration_wf(registration),
    ensures
        ({
            let step = spec_step(
                registration,
                wallet,
                tracker,
                db,
                RegistrationEventView::IdentityChecked(Ok((id, false))),
            );
            &&& step.action is Submit
            &&& step.registration.phase == RegistrationPhase::AwaitingSubmission
            &&& stored_identity_status(step.db.identities, id, registration.network) == Some(
                IdentityStatus::PendingCreation,
            )
            &&& step.wallet == wallet
            &&& step.tracker == tracker
        }),
{
}

/// When the platform has accepted a registration, the registration ends
/// with the status that asks for a fresh look, the tables hold the identity
/// with that status, and the wallet holds the identity under its index.
pub proof fn lemma_accepted_registration_is_recorded(
    registration: RegistrationView,
    wallet: WalletView,
    tracker: TrackerMap,
    db: DatabaseView,
    registered: Identity,
)
    requires
        registration.phase == RegistrationPhase::AwaitingSubmission,
        registration_wf(registration),
        registered.id == registration.identity->0.identity.id,
    ensures
        ({
            let step = spec_step(
                registration,
                wallet,
                tracker,
                db,
                RegistrationEventView::Submitted(Ok(registered)),
            );
            let index = registration.info.wallet_identity_index;
            &&& step.registration.phase == RegistrationPhase::Registered
            &&& step.action is ReportSuccess
            &&& step.registration.identity->0.status == IdentityStatus::Unknown
            &&& stored_identity_status(step.db.identities, registered.id, registration.network)
                == Some(IdentityStatus::Unknown)
            &&& step.wallet.identities.dom().contains(index)
            &&& step.wallet.identities[index].id == registered.id
            &&& step.wallet.utxos == wallet.utxos
        }),
{
}


/// Where the funding transaction of an instant lock has come under a chain
/// lock with more than eight confirmations, the registration goes on with
/// the chain proof, and it is the chain proof that is sent to the
/// platform.
pub proof fn lemma_registration_uses_the_chain_proof(
    registration: RegistrationView,
    wallet: WalletView,
    tracker: TrackerMap,
    db: DatabaseView,
    info: RawTransactionInfo,
    id: Identifier,
)
    requires
        registration.phase == RegistrationPhase::AwaitingTransactionInfo,
        registration_wf(registration),
        registration.lock_proof->0 is Instant,
        info.chainlock,
        info.confirmations is Some,
        info.confirmations->0 > 8,
    ensures
        ({
            let chain = AssetLockProofView::Chain(
                ChainAssetLockProof {
                    core_chain_locked_height: registration.core_chain_locked_height,
                    out_point: OutPoint { txid: registration.txid->0, vout: 0 },
                },
            );
            let step = spec_step(
                registration,
                wallet,
                tracker,
                db,
                RegistrationEventView::TransactionInfo(Ok(info)),
            );
            let next = spec_step(
                step.registration,
                step.wallet,
                step.tracker,
                step.db,
                RegistrationEventView::IdentityChecked(Ok((id, false))),
            );
            &&& step.registration.lock_proof == Some(chain)
            &&& step.action == RegistrationActionView::CheckIdentity(chain)
            &&& next.action == RegistrationActionView::Submit(
                Identity { id, balance: 0, revision: 0 },
                chain,
            )
        }),
{
}


/// No step of a registration deletes a funding transaction from the
/// tables: every row stays, in its place and with its transaction; a step
/// only notes on a row which identity the transaction funds.
pub proof fn lemma_funding_transactions_are_kept(
    registration: RegistrationView,
    wallet: WalletView,
    tracker: TrackerMap,
    db: DatabaseView,
    event: RegistrationEventView,
    k: int,
)
    requires
        0 <= k < db.asset_lock_transactions.len(),
    ensures
        ({
            let step = spec_step(registration, wallet, tracker, db, event);
            &&& step.db.asset_lock_transactions.len() == db.asset_lock_transactions.len()
            &&& step.db.asset_lock_transactions[k].txid == db.asset_lock_transactions[k].txid
            &&& step.db.asset_lock_transactions[k].transaction
                == db.asset_lock_transactions[k].transaction
            &&& step.db.asset_lock_transactions[k].amount == db.asset_lock_transactions[k].amount
            &&& db.asset_lock_transactions[k].identity_id is Some
                ==> step.db.asset_lock_transactions[k].identity_id is Some
        }),
{
}


/// Whatever the node answers to the broadcast, the wallet and the tables
/// stay in step: an output that both held or both lacked before the answer
/// is held by both or lacked by both after it.
pub proof fn lemma_wallet_and_tables_stay_in_step(
    registration: RegistrationView,
    wallet: WalletView,
    tracker: TrackerMap,
    db: DatabaseView,
    answer: Result<(), Seq<char>>,
    outpoint: OutPoint,
)
    requires
        registration.phase == RegistrationPhase::AwaitingBroadcast,
        registration_wf(registration),
        wallet.holds(outpoint) <==> has_utxo_row(db.utxos, outpoint, registration.network),
    ensures
        ({
            let step = spec_step(
                registration,
                wallet,
                tracker,
                db,
                RegistrationEventView::Broadcast(answer),
            );
            step.wallet.holds(outpoint) <==> has_utxo_row(
                step.db.utxos,
                outpoint,
                registration.network,
            )
        }),
{
    match answer {
        Ok(()) => {
            lemma_spent_outputs_leave_together(registration, wallet, tracker, db, outpoint);
        },
        Err(words) => {
            lemma_failed_broadcast_spends_nothing(
                registration,
                wallet,
                tracker,
                db,
                words,
                outpoint,
            );
        },
    }
}

/// A registration funded from the balance of a wallet that holds exactly
/// one unspent output, not reserved and worth more than amount and fee
/// together, spends that output: the transaction that goes to the signer
/// has it as its one input and credits the amount; once the node has taken
/// the transaction, the wallet holds no output, the address of the output
/// has no entry in the index of outputs and is registered as before, and
/// the tables hold no row of the output.
pub proof fn lemma_funding_from_one_output(
    registration: RegistrationView,
    wallet: WalletView,
    tracker: TrackerMap,
    db: DatabaseView,
    height: u32,
    txid: Txid,
)
    requires
        registration.phase == RegistrationPhase::AwaitingMetadata,
        registration.info.identity_funding_method is FundWithWallet,
        wallet.wf(),
        wallet.utxos.len() == 1,
        !wallet.utxos[0].reserved,
        wallet.utxos[0].value > registration.info.identity_funding_method->FundWithWallet_0
            + registration.fee,
    ensures
        ({
            let amount = registration.info.identity_funding_method->FundWithWallet_0;
            let only = wallet.utxos[0];
            let planned = spec_step(
                registration,
                wallet,
                tracker,
                db,
                RegistrationEventView::Metadata(Ok(height)),
            );
            let signed = spec_step(
                planned.registration,
                planned.wallet,
                planned.tracker,
                planned.db,
                RegistrationEventView::Signed(Ok(txid)),
            );
            let sent = spec_step(
                signed.registration,
                signed.wallet,
                signed.tracker,
                signed.db,
                RegistrationEventView::Broadcast(Ok(())),
            );
            &&& planned.action matches RegistrationActionView::Sign(funding)
            &&& funding.inputs == seq![input_of(only)]
            &&& funding.credit_amount == amount
            &&& funding.change == only.value - amount - registration.fee
            &&& signed.action == RegistrationActionView::Broadcast(txid)
            &&& sent.wallet.utxos == Seq::<UtxoView>::empty()
            &&& !sent.wallet.indexes(only.address)
            &&& sent.wallet.knows(only.address)
            &&& sent.wallet.known_addresses.len() == wallet.known_addresses.len()
            &&& forall|j: int|
                0 <= j < wallet.known_addresses.len() ==> (
                #[trigger] sent.wallet.known_addresses[j]).address
                    == wallet.known_addresses[j].address
            &&& !has_utxo_row(sent.db.utxos, only.outpoint, registration.network)
        }),
{
    let amount = registration.info.identity_funding_method->FundWithWallet_0;
    let index = registration.info.identity_funding_method->FundWithWallet_1;
    let only = wallet.utxos[0];
    lemma_single_output_is_spent(wallet, amount, registration.fee, index);
    let spent = seq![only.outpoint];
    let marked = with_marks(wallet.utxos, spent, true);
    assert(spent.contains(only.outpoint)) by {
        assert(spent[0] == only.outpoint);
    }
    assert(marked.len() == 1);
    assert(marked.last().outpoint == only.outpoint);
    assert(crate::wallet::without_spent(marked.drop_last(), spent) =~= Seq::<UtxoView>::empty());
    assert(crate::wallet::without_spent(marked, spent) =~= Seq::<UtxoView>::empty());
    lemma_without_spent_rows(
        db.utxos,
        spent,
        registration.network,
        only.outpoint,
        registration.network,
    );
    assert(wallet.knows(only.address));
    let j = choose|j: int|
        0 <= j < wallet.known_addresses.len() && (#[trigger] wallet.known_addresses[j]).address
            == only.address;
    let planned = spec_step(
        registration,
        wallet,
        tracker,
        db,
        RegistrationEventView::Metadata(Ok(height)),
    );
    let signed = spec_step(
        planned.registration,
        planned.wallet,
        planned.tracker,
        planned.db,
        RegistrationEventView::Signed(Ok(txid)),
    );
    let sent = spec_step(
        signed.registration,
        signed.wallet,
        signed.tracker,
        signed.db,
        RegistrationEventView::Broadcast(Ok(())),
    );
    assert(planned.wallet.utxos == marked);
    assert(sent.wallet.known_addresses[j].address == only.address);
}

/// The record of the identity holds the keys that the registration was
/// given: from the step that writes the record, pending, through whatever
/// the platform answers to the sending.
pub proof fn lemma_record_holds_the_given_keys(
    registration: RegistrationView,
    wallet: WalletView,
    tracker: TrackerMap,
    db: DatabaseView,
    id: Identifier,
    answer: Result<Identity, SubmissionFailureView>,
)
    requires
        registration.phase == RegistrationPhase::AwaitingIdentityCheck,
        registration_wf(registration),
    ensures
        ({
            let written = spec_step(
                registration,
                wallet,
                tracker,
                db,
                RegistrationEventView::IdentityChecked(Ok((id, false))),
            );
            let answered = spec_step(
                written.registration,
                written.wallet,
                written.tracker,
                written.db,
                RegistrationEventView::Submitted(answer),
            );
            &&& written.registration.identity is Some
            &&& written.registration.identity->0.private_keys == registration.info.keys
            &&& answered.registration.identity is Some
            &&& answered.registration.identity->0.private_keys == registration.info.keys
        }),
{
}

} // verus!
