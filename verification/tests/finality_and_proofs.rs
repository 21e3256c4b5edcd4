use dash_evo_tool::asset_lock_proof::{
    proof_for_registration, AssetLockProof, ChainAssetLockProof, InstantAssetLockProof,
    RawTransactionInfo,
};
use dash_evo_tool::chain::OutPoint;
use dash_evo_tool::finality::{FinalityStatus, FinalityTracker, Resolution, POLL_INTERVAL_MS};

fn txid(tag: u8) -> [u8; 32] {
    [tag; 32]
}

fn instant(tag: u8) -> AssetLockProof {
    AssetLockProof::Instant(InstantAssetLockProof {
        instant_lock: vec![tag, 1, 2],
        transaction: vec![tag, 9],
        txid: txid(tag),
        output_index: 0,
    })
}

fn chain(tag: u8, height: u32) -> AssetLockProof {
    AssetLockProof::Chain(ChainAssetLockProof {
        core_chain_locked_height: height,
        out_point: OutPoint { txid: txid(tag), vout: 0 },
    })
}

fn info(chainlock: bool, height: Option<u32>, confirmations: Option<u32>) -> RawTransactionInfo {
    RawTransactionInfo { chainlock, height, confirmations }
}

#[test]
fn instant_lock_under_durable_chain_lock_is_replaced_by_chain_proof() {
    let chosen = proof_for_registration(
        instant(1),
        txid(1),
        Some(info(true, Some(1_000), Some(9))),
        1_234,
    );
    assert_eq!(chosen, chain(1, 1_234));
    assert_eq!(chosen.out_point(), OutPoint { txid: txid(1), vout: 0 });
    assert!(!chosen.is_instant());
}

#[test]
fn instant_lock_is_kept_up_to_eight_confirmations() {
    let chosen =
        proof_for_registration(instant(1), txid(1), Some(info(true, Some(1_000), Some(8))), 1_234);
    assert_eq!(chosen, instant(1));
    assert!(chosen.is_instant());
}

#[test]
fn instant_lock_is_kept_without_chain_lock_or_confirmations() {
    let cases = [
        info(false, Some(1_000), Some(100)),
        info(false, None, Some(100)),
        info(true, Some(1_000), None),
        info(true, None, None),
        info(true, None, Some(8)),
    ];
    for case in cases {
        assert!(!case.chain_lock_is_durable());
        assert_eq!(proof_for_registration(instant(2), txid(2), Some(case), 50), instant(2));
    }
    assert_eq!(proof_for_registration(instant(2), txid(2), None, 50), instant(2));
    assert!(info(true, Some(1), Some(9)).chain_lock_is_durable());
}

#[test]
fn chain_lock_is_durable_whether_or_not_a_height_is_reported() {
    let report = info(true, None, Some(9));
    assert!(report.chain_lock_is_durable());
    assert_eq!(proof_for_registration(instant(2), txid(2), Some(report), 50), chain(2, 50));
    let report = info(true, None, Some(100));
    assert!(report.chain_lock_is_durable());
    assert_eq!(proof_for_registration(instant(5), txid(5), Some(report), 77), chain(5, 77));
}

#[test]
fn chain_proof_is_kept_as_it_is() {
    let chosen =
        proof_for_registration(chain(3, 77), txid(3), Some(info(true, Some(1), Some(100))), 999);
    assert_eq!(chosen, chain(3, 77));
}

#[test]
fn instant_proof_names_the_outpoint_of_its_output() {
    let held = AssetLockProof::Instant(InstantAssetLockProof {
        instant_lock: vec![],
        transaction: vec![],
        txid: txid(4),
        output_index: 3,
    });
    assert_eq!(held.out_point(), OutPoint { txid: txid(4), vout: 3 });
}

#[test]
fn register_pending_inserts_only_if_absent() {
    let mut tracker = FinalityTracker::new();
    assert_eq!(tracker.len(), 0);
    assert_eq!(tracker.status(&txid(1)), FinalityStatus::Unknown);
    assert!(tracker.register_pending(txid(1)));
    assert_eq!(tracker.status(&txid(1)), FinalityStatus::Pending);
    assert!(!tracker.register_pending(txid(1)));
    assert_eq!(tracker.len(), 1);
    assert_eq!(tracker.resolution(&txid(1)), None);
}

#[test]
fn resolve_overwrites_a_registered_entry() {
    let mut tracker = FinalityTracker::new();
    tracker.register_pending(txid(1));
    assert!(tracker.resolve(txid(1), instant(1)));
    assert_eq!(tracker.status(&txid(1)), FinalityStatus::Resolved);
    assert_eq!(tracker.resolution(&txid(1)), Some(instant(1)));
    assert!(tracker.resolve(txid(1), chain(1, 5)));
    assert_eq!(tracker.resolution(&txid(1)), Some(chain(1, 5)));
    assert_eq!(tracker.len(), 1);
}

#[test]
fn resolve_does_not_match_an_unknown_transaction() {
    let mut tracker = FinalityTracker::new();
    tracker.register_pending(txid(1));
    assert!(!tracker.resolve(txid(2), instant(2)));
    assert_eq!(tracker.status(&txid(2)), FinalityStatus::Unknown);
    assert_eq!(tracker.status(&txid(1)), FinalityStatus::Pending);
    assert_eq!(tracker.len(), 1);
}

#[test]
fn resolution_is_monotonic() {
    let mut tracker = FinalityTracker::new();
    tracker.register_pending(txid(1));
    tracker.register_pending(txid(2));
    tracker.resolve(txid(1), instant(1));
    assert!(!tracker.register_pending(txid(1)));
    assert!(!tracker.remove_pending(txid(1)));
    assert_eq!(tracker.status(&txid(1)), FinalityStatus::Resolved);
    assert_eq!(tracker.resolution(&txid(1)), Some(instant(1)));
    assert!(tracker.remove_pending(txid(2)));
    assert_eq!(tracker.status(&txid(1)), FinalityStatus::Resolved);
}

#[test]
fn remove_pending_takes_back_an_unresolved_entry_only() {
    let mut tracker = FinalityTracker::new();
    assert!(!tracker.remove_pending(txid(1)));
    tracker.register_pending(txid(1));
    tracker.register_pending(txid(2));
    tracker.register_pending(txid(3));
    assert!(tracker.remove_pending(txid(2)));
    assert_eq!(tracker.status(&txid(2)), FinalityStatus::Unknown);
    assert_eq!(tracker.status(&txid(1)), FinalityStatus::Pending);
    assert_eq!(tracker.status(&txid(3)), FinalityStatus::Pending);
    assert_eq!(tracker.len(), 2);
    assert!(tracker.register_pending(txid(2)));
}

#[test]
fn await_resolution_waits_two_hundred_milliseconds_while_pending() {
    let mut tracker = FinalityTracker::new();
    tracker.register_pending(txid(1));
    assert_eq!(POLL_INTERVAL_MS, 200);
    assert_eq!(
        tracker.await_resolution(&txid(1), POLL_INTERVAL_MS, 0, None),
        Resolution::Wait(200)
    );
    assert_eq!(
        tracker.await_resolution(&txid(1), POLL_INTERVAL_MS, u64::MAX, None),
        Resolution::Wait(200)
    );
    assert_eq!(
        tracker.await_resolution(&txid(9), 50, 0, None),
        Resolution::Wait(50)
    );
}

#[test]
fn await_resolution_gives_the_proof_once_resolved() {
    let mut tracker = FinalityTracker::new();
    tracker.register_pending(txid(1));
    tracker.resolve(txid(1), chain(1, 10));
    assert_eq!(
        tracker.await_resolution(&txid(1), POLL_INTERVAL_MS, 0, None),
        Resolution::Resolved(chain(1, 10))
    );
    assert_eq!(
        tracker.await_resolution(&txid(1), POLL_INTERVAL_MS, 5_000, Some(1_000)),
        Resolution::Resolved(chain(1, 10))
    );
}

#[test]
fn await_resolution_times_out_when_the_wait_has_reached_the_limit() {
    let mut tracker = FinalityTracker::new();
    tracker.register_pending(txid(1));
    assert_eq!(
        tracker.await_resolution(&txid(1), POLL_INTERVAL_MS, 999, Some(1_000)),
        Resolution::Wait(200)
    );
    assert_eq!(
        tracker.await_resolution(&txid(1), POLL_INTERVAL_MS, 1_000, Some(1_000)),
        Resolution::TimedOut
    );
}
