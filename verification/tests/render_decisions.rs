use dash_evo_tool::contested_names::ResourceVoteChoice;
use dash_evo_tool::dpns::{
    any_scheduled, bulk_popup_content, message_seconds_left, BulkPopupContent, RefreshingStatus,
    ScheduledVoteCastingStatus, ScreenRequest, VoteHandlingStatus, VoteOption,
};
use dash_evo_tool::dpns_screen::{DPNSStatus, ScheduledDPNSVote, TrackedVote};
use dash_evo_tool::pricing::TokenPricingSchedule;
use dash_evo_tool::tokens::{
    offers_update, purchase_offer, update_token_config_request, GroupStateTransitionInfo,
    GroupStateTransitionInfoStatus, PurchaseOffer, TokenConfigurationChangeItem,
    UpdateTokenConfigRequest,
};
use std::collections::BTreeMap;

#[test]
fn purchase_is_open_to_credits_that_reach_the_least_price() {
    let single = Some(Some(TokenPricingSchedule::SinglePrice(250)));
    assert_eq!(purchase_offer(false, &single, Some(250)), PurchaseOffer::Open);
    assert_eq!(purchase_offer(false, &single, Some(u64::MAX)), PurchaseOffer::Open);
    assert_eq!(
        purchase_offer(false, &single, Some(249)),
        PurchaseOffer::Closed(
            "Insufficient credits. Need at least 250 credits to purchase one token".to_string()
        )
    );
    assert_eq!(
        purchase_offer(false, &single, None),
        PurchaseOffer::Closed(
            "Insufficient credits. Need at least 250 credits to purchase one token".to_string()
        )
    );
    let tiers = Some(Some(TokenPricingSchedule::SetPrices(BTreeMap::from([
        (10, 90),
        (1, 1_000),
        (5, 95),
    ]))));
    assert_eq!(purchase_offer(false, &tiers, Some(1_000)), PurchaseOffer::Open);
    assert_eq!(
        purchase_offer(false, &tiers, Some(999)),
        PurchaseOffer::Closed(
            "Insufficient credits. Need at least 1000 credits to purchase one token".to_string()
        )
    );
    let free = Some(Some(TokenPricingSchedule::SinglePrice(0)));
    assert_eq!(purchase_offer(false, &free, Some(0)), PurchaseOffer::Open);
    assert_eq!(
        purchase_offer(false, &free, None),
        PurchaseOffer::Closed(
            "Insufficient credits. Need at least 0 credits to purchase one token".to_string()
        )
    );
}

#[test]
fn purchase_waits_for_the_price() {
    let single = Some(Some(TokenPricingSchedule::SinglePrice(250)));
    assert_eq!(purchase_offer(true, &single, Some(1_000)), PurchaseOffer::Loading);
    assert_eq!(purchase_offer(true, &None, None), PurchaseOffer::Loading);
    assert_eq!(purchase_offer(false, &None, Some(1_000)), PurchaseOffer::Hidden);
    assert_eq!(
        purchase_offer(false, &Some(None), Some(1_000)),
        PurchaseOffer::Closed("No credits available for purchase".to_string())
    );
}

#[test]
fn update_button_needs_a_change_and_hides_tests_from_users() {
    let change = TokenConfigurationChangeItem::MaxSupply;
    let none = TokenConfigurationChangeItem::TokenConfigurationNoChange;
    assert!(offers_update(false, "Update Config", change));
    assert!(!offers_update(false, "Update Config", none));
    assert!(!offers_update(false, "Test Update Config", change));
    assert!(offers_update(true, "Test Update Config", change));
    assert!(!offers_update(true, "Test Update Config", none));
    assert!(offers_update(false, "test update", change));
}

#[test]
fn update_request_says_how_the_change_stands_in_the_group() {
    let change = TokenConfigurationChangeItem::Conventions;
    let note = Some("why".to_string());
    assert_eq!(
        update_token_config_request(change, None, None, note.clone()),
        UpdateTokenConfigRequest { change_item: change, public_note: note.clone(), group_info: None }
    );
    assert_eq!(
        update_token_config_request(change, Some(3), None, note.clone()),
        UpdateTokenConfigRequest {
            change_item: change,
            public_note: note.clone(),
            group_info: Some(GroupStateTransitionInfoStatus::GroupStateTransitionInfoProposer(3)),
        }
    );
    assert_eq!(
        update_token_config_request(change, Some(3), Some([7u8; 32]), note.clone()),
        UpdateTokenConfigRequest {
            change_item: change,
            public_note: None,
            group_info: Some(GroupStateTransitionInfoStatus::GroupStateTransitionInfoOtherSigner(
                GroupStateTransitionInfo {
                    group_contract_position: 3,
                    action_id: [7u8; 32],
                    action_is_proposer: false,
                }
            )),
        }
    );
    assert_eq!(
        update_token_config_request(change, None, Some([7u8; 32]), note),
        UpdateTokenConfigRequest { change_item: change, public_note: None, group_info: None }
    );
}

#[test]
fn bulk_window_shows_what_is_missing_before_the_choices() {
    let open = VoteHandlingStatus::NotStarted;
    assert_eq!(bulk_popup_content(&VoteHandlingStatus::Completed, 0, 0), BulkPopupContent::Completed);
    assert_eq!(bulk_popup_content(&VoteHandlingStatus::Completed, 2, 2), BulkPopupContent::Completed);
    assert_eq!(bulk_popup_content(&open, 0, 0), BulkPopupContent::NoVotingIdentities);
    assert_eq!(bulk_popup_content(&open, 0, 5), BulkPopupContent::NoVotingIdentities);
    assert_eq!(bulk_popup_content(&open, 1, 0), BulkPopupContent::NoVotesSelected);
    assert_eq!(bulk_popup_content(&open, 1, 1), BulkPopupContent::Options);
    assert_eq!(
        bulk_popup_content(&VoteHandlingStatus::Failed("x".to_string()), 1, 1),
        BulkPopupContent::Options
    );
    assert_eq!(bulk_popup_content(&VoteHandlingStatus::CastingVotes(1), 1, 1), BulkPopupContent::Options);
}

#[test]
fn bulk_window_warns_when_some_identity_votes_later() {
    let later = VoteOption::Scheduled { days: 0, hours: 1, minutes: 0 };
    assert!(!any_scheduled(&vec![]));
    assert!(!any_scheduled(&vec![VoteOption::CastNow, VoteOption::NoVote]));
    assert!(any_scheduled(&vec![VoteOption::CastNow, later]));
    assert!(any_scheduled(&vec![later, VoteOption::NoVote]));
}

fn followed(name: &str, voter: u8, status: ScheduledVoteCastingStatus) -> TrackedVote {
    TrackedVote {
        vote: ScheduledDPNSVote {
            contested_name: name.to_string(),
            voter_id: [voter; 32],
            choice: ResourceVoteChoice::Abstain,
            unix_timestamp: 10,
            executed_successfully: false,
        },
        status,
    }
}

fn table(cast_in_progress: bool) -> DPNSStatus {
    DPNSStatus {
        scheduled_votes: vec![
            followed("a", 1, ScheduledVoteCastingStatus::Completed),
            followed("b", 1, ScheduledVoteCastingStatus::NotStarted),
            followed("b", 2, ScheduledVoteCastingStatus::InProgress),
            followed("b", 1, ScheduledVoteCastingStatus::Failed),
        ],
        scheduled_vote_cast_in_progress: cast_in_progress,
        refreshing_status: RefreshingStatus::NotRefreshing,
        bulk_vote_handling_status: VoteHandlingStatus::NotStarted,
        bulk_schedule_message: None,
    }
}

#[test]
fn scheduled_vote_is_cast_at_once_where_none_is_under_way() {
    let mut screen = table(false);
    assert!(screen.cast_now(1));
    let mut expected = table(true);
    expected.scheduled_votes[1].status = ScheduledVoteCastingStatus::InProgress;
    assert_eq!(screen, expected);
    assert!(!screen.cast_now(3));
    assert_eq!(screen, expected);

    let mut screen = table(false);
    assert!(screen.cast_now(3));
    let mut expected = table(true);
    expected.scheduled_votes[1].status = ScheduledVoteCastingStatus::InProgress;
    assert_eq!(screen, expected);
}

#[test]
fn scheduled_vote_is_not_cast_twice_nor_beside_another() {
    for index in [0, 2, 4, 100] {
        let mut screen = table(false);
        assert!(!screen.cast_now(index));
        assert_eq!(screen, table(false));
    }
    for index in 0..5 {
        let mut screen = table(true);
        assert!(!screen.cast_now(index));
        assert_eq!(screen, table(true));
    }
    assert!(ScheduledVoteCastingStatus::NotStarted.can_be_cast(false));
    assert!(ScheduledVoteCastingStatus::Failed.can_be_cast(false));
    assert!(!ScheduledVoteCastingStatus::InProgress.can_be_cast(false));
    assert!(!ScheduledVoteCastingStatus::Completed.can_be_cast(false));
    assert!(!ScheduledVoteCastingStatus::NotStarted.can_be_cast(true));
}

#[test]
fn casting_status_is_shown_under_its_word() {
    assert_eq!(ScheduledVoteCastingStatus::NotStarted.label(), "Pending");
    assert_eq!(ScheduledVoteCastingStatus::InProgress.label(), "Casting...");
    assert_eq!(ScheduledVoteCastingStatus::Failed.label(), "Failed");
    assert_eq!(ScheduledVoteCastingStatus::Completed.label(), "Casted");
}

#[test]
fn message_counts_down_its_ten_seconds() {
    assert_eq!(message_seconds_left(100, 100), 10);
    assert_eq!(message_seconds_left(100, 103), 7);
    assert_eq!(message_seconds_left(100, 110), 0);
    assert_eq!(message_seconds_left(100, 1_000), 0);
    assert_eq!(message_seconds_left(100, 99), 11);
    assert_eq!(message_seconds_left(i64::MAX, i64::MIN), i64::MAX);
    assert_eq!(message_seconds_left(i64::MIN, i64::MAX), 0);
    assert_eq!(message_seconds_left(i64::MAX, i64::MAX), 10);
    assert_eq!(message_seconds_left(i64::MAX, i64::MAX - 5), 15);
}

#[test]
fn loading_begins_with_the_request_and_ends_with_another_main_screen() {
    let idle = RefreshingStatus::NotRefreshing;
    let busy = RefreshingStatus::Refreshing(5);
    for before in [idle, busy] {
        assert_eq!(
            before.after_action(ScreenRequest::QueryContests, 9),
            (RefreshingStatus::Refreshing(9), true)
        );
        assert_eq!(
            before.after_action(ScreenRequest::RefreshOwnedNames, 9),
            (RefreshingStatus::Refreshing(9), true)
        );
        assert_eq!(
            before.after_action(ScreenRequest::SetMainScreen, 9),
            (RefreshingStatus::NotRefreshing, false)
        );
        assert_eq!(before.after_action(ScreenRequest::Other, 9), (before, false));
    }
}
