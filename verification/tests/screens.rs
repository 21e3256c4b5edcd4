use dash_evo_tool::app::{AppAction, AppState, DesiredAppAction, Screen, ScreenType};
use dash_evo_tool::chain::Network;
use dash_evo_tool::dpns::{
    message_has_expired, BulkVotePlan, DPNSSubscreen, RefreshingStatus,
    ScheduledVoteCastingStatus, SortColumn, SortOrder, Sorting, VoteHandlingStatus, VoteOption,
};
use dash_evo_tool::entropy_grid::U256EntropyGrid;
use dash_evo_tool::helpers::{
    contract_matches_search, document_security_levels, group_action_standing,
    group_action_text, key_choice, no_suitable_keys, security_levels_for, GroupActionStanding,
    KeyChoice, Purpose, SecurityLevel, TransactionType,
};

fn screen(screen_type: ScreenType, refreshes: u64) -> Screen {
    Screen { screen_type, refreshes }
}

#[test]
fn app_starts_on_the_main_screen() {
    let state = AppState::new();
    assert_eq!(*state.visible_screen(), screen(ScreenType::Main, 0));
    assert_eq!(state.visible_screen_type(), ScreenType::Main);
    assert!(state.screen_stack.is_empty());
    assert_eq!(state.app_context.network, Network::Dash);
    assert!(!state.app_context.is_developer_mode());
    assert!(state.app_context.wallets.is_empty());
    assert_eq!(state.app_context.transactions_waiting_for_finality.len(), 0);
    assert!(state.app_context.db.wallet_rows().is_empty());
    assert!(state.app_context.db.address_rows().is_empty());
    assert!(state.app_context.db.utxo_rows().is_empty());
    assert!(state.app_context.db.asset_lock_rows().is_empty());
    assert!(state.app_context.db.identity_rows().is_empty());
}

#[test]
fn create_action_creates_the_screen_it_names() {
    let state = AppState::new();
    let context = &state.app_context;
    assert_eq!(DesiredAppAction::NoAction.create_action(context), AppAction::NoAction);
    assert_eq!(DesiredAppAction::PopScreen.create_action(context), AppAction::PopScreen);
    assert_eq!(DesiredAppAction::GoToMainScreen.create_action(context), AppAction::GoToMainScreen);
    assert_eq!(
        DesiredAppAction::AddScreenType(ScreenType::KeyInfo).create_action(context),
        AppAction::AddScreen(screen(ScreenType::KeyInfo, 0))
    );
}

#[test]
fn add_screen_shows_the_new_screen() {
    let mut state = AppState::new();
    state.update(AppAction::AddScreen(screen(ScreenType::DPNSActiveContests, 0)));
    state.update(AppAction::AddScreen(screen(ScreenType::KeyInfo, 0)));
    assert_eq!(state.visible_screen_type(), ScreenType::KeyInfo);
    assert_eq!(state.screen_stack.len(), 2);
    state.update(AppAction::NoAction);
    assert_eq!(state.screen_stack.len(), 2);
}

#[test]
fn pop_screen_on_an_empty_stack_changes_nothing() {
    let mut state = AppState::new();
    state.update(AppAction::PopScreen);
    assert_eq!(*state.visible_screen(), screen(ScreenType::Main, 0));
    state.update(AppAction::AddScreen(screen(ScreenType::MyTokens, 0)));
    state.update(AppAction::PopScreen);
    assert_eq!(*state.visible_screen(), screen(ScreenType::Main, 0));
}

#[test]
fn pop_screen_and_refresh_refreshes_what_becomes_visible() {
    let mut state = AppState::new();
    state.update(AppAction::AddScreen(screen(ScreenType::MyTokens, 0)));
    state.update(AppAction::AddScreen(screen(ScreenType::UpdateTokenConfig, 0)));
    state.update(AppAction::PopScreenAndRefresh);
    assert_eq!(state.screen_stack, vec![screen(ScreenType::MyTokens, 1)]);
    assert_eq!(state.main_screen, screen(ScreenType::Main, 0));
    state.update(AppAction::PopScreenAndRefresh);
    assert!(state.screen_stack.is_empty());
    assert_eq!(state.main_screen, screen(ScreenType::Main, 1));
    state.update(AppAction::PopScreenAndRefresh);
    assert_eq!(state.main_screen, screen(ScreenType::Main, 2));
}

#[test]
fn go_to_main_screen_empties_the_stack_and_refreshes_the_main_screen() {
    let mut state = AppState::new();
    state.update(AppAction::AddScreen(screen(ScreenType::MyTokens, 0)));
    state.update(AppAction::AddScreen(screen(ScreenType::KeyInfo, 0)));
    state.update(AppAction::GoToMainScreen);
    assert!(state.screen_stack.is_empty());
    assert_eq!(state.main_screen, screen(ScreenType::Main, 1));
}

#[test]
fn visible_screen_mut_changes_the_visible_screen() {
    let mut state = AppState::new();
    state.visible_screen_mut().refresh();
    assert_eq!(state.main_screen.refreshes, 1);
    state.update(AppAction::AddScreen(screen(ScreenType::KeyInfo, 0)));
    state.visible_screen_mut().refresh();
    state.visible_screen_mut().refresh();
    assert_eq!(state.screen_stack[0].refreshes, 2);
    assert_eq!(state.main_screen.refreshes, 1);
    let mut worn = screen(ScreenType::Main, u64::MAX);
    worn.refresh();
    assert_eq!(worn.refreshes, u64::MAX);
    assert_eq!(worn.screen_type(), ScreenType::Main);
}

#[test]
fn subscreen_names() {
    assert_eq!(DPNSSubscreen::Active.display_name(), "Active contests");
    assert_eq!(DPNSSubscreen::Past.display_name(), "Past contests");
    assert_eq!(DPNSSubscreen::Owned.display_name(), "My usernames");
    assert_eq!(DPNSSubscreen::ScheduledVotes.display_name(), "Scheduled votes");
    assert_eq!(DPNSSubscreen::Active.empty_text(), "No active contests at the moment.");
    assert_eq!(DPNSSubscreen::Past.empty_text(), "No active or past contests at the moment.");
    assert_eq!(DPNSSubscreen::Owned.empty_text(), "No owned usernames.");
    assert_eq!(DPNSSubscreen::ScheduledVotes.empty_text(), "No scheduled votes.");
    assert!(DPNSSubscreen::Owned.offers_refresh());
    assert!(!DPNSSubscreen::ScheduledVotes.offers_refresh());
}

#[test]
fn toggle_sort_turns_the_direction_or_takes_the_new_column() {
    let mut sorting = Sorting::new();
    assert_eq!(sorting.sort_column, SortColumn::ContestedName);
    assert_eq!(sorting.sort_order, SortOrder::Ascending);
    sorting.toggle_sort(SortColumn::ContestedName);
    assert_eq!(sorting.sort_order, SortOrder::Descending);
    sorting.toggle_sort(SortColumn::ContestedName);
    assert_eq!(sorting.sort_order, SortOrder::Ascending);
    sorting.toggle_sort(SortColumn::ContestedName);
    sorting.toggle_sort(SortColumn::EndingTime);
    assert_eq!(
        sorting,
        Sorting { sort_column: SortColumn::EndingTime, sort_order: SortOrder::Ascending }
    );
}

#[test]
fn scheduled_vote_delay_in_milliseconds() {
    assert_eq!(VoteOption::NoVote.delay_millis(), None);
    assert_eq!(VoteOption::CastNow.delay_millis(), None);
    let option = VoteOption::Scheduled { days: 1, hours: 2, minutes: 3 };
    assert_eq!(option.delay_millis(), Some(86_400_000 + 7_200_000 + 180_000));
    assert_eq!(option.scheduled_time(1_000), Some(93_781_000));
    let longest = VoteOption::Scheduled { days: u32::MAX, hours: u32::MAX, minutes: u32::MAX };
    assert_eq!(
        longest.delay_millis(),
        Some(u32::MAX as u64 * (86_400_000 + 3_600_000 + 60_000))
    );
    assert_eq!(longest.scheduled_time(u64::MAX), Some(u64::MAX));
    assert_eq!(VoteOption::CastNow.scheduled_time(5), None);
}

#[test]
fn message_expires_after_ten_seconds() {
    assert!(!message_has_expired(100, 109));
    assert!(message_has_expired(100, 110));
    assert!(message_has_expired(100, 1_000));
    assert!(!message_has_expired(100, 50));
    assert!(message_has_expired(i64::MIN, i64::MAX));
    assert!(!message_has_expired(i64::MAX, i64::MIN));
    assert!(message_has_expired(-5, 5));
    assert!(!message_has_expired(-5, 4));
}

#[test]
fn scheduled_vote_statuses() {
    assert_eq!(ScheduledVoteCastingStatus::merged(true, Some(ScheduledVoteCastingStatus::Failed)), ScheduledVoteCastingStatus::Completed);
    assert_eq!(ScheduledVoteCastingStatus::merged(false, Some(ScheduledVoteCastingStatus::InProgress)), ScheduledVoteCastingStatus::InProgress);
    assert_eq!(ScheduledVoteCastingStatus::merged(false, Some(ScheduledVoteCastingStatus::Failed)), ScheduledVoteCastingStatus::Failed);
    assert_eq!(ScheduledVoteCastingStatus::merged(false, Some(ScheduledVoteCastingStatus::Completed)), ScheduledVoteCastingStatus::NotStarted);
    assert_eq!(ScheduledVoteCastingStatus::merged(false, None), ScheduledVoteCastingStatus::NotStarted);
    assert_eq!(ScheduledVoteCastingStatus::InProgress.after_casting_error(), ScheduledVoteCastingStatus::Failed);
    assert_eq!(ScheduledVoteCastingStatus::Completed.after_casting_error(), ScheduledVoteCastingStatus::Completed);
    assert_eq!(ScheduledVoteCastingStatus::NotStarted.after_casting_error(), ScheduledVoteCastingStatus::NotStarted);
}

#[test]
fn vote_handling_begins_by_what_was_selected() {
    assert_eq!(VoteHandlingStatus::plan(0, 0), BulkVotePlan::NothingSelected);
    assert_eq!(VoteHandlingStatus::plan(2, 0), BulkVotePlan::CastOnly);
    assert_eq!(VoteHandlingStatus::plan(2, 6), BulkVotePlan::CastAndSchedule);
    assert_eq!(VoteHandlingStatus::plan(0, 6), BulkVotePlan::ScheduleOnly);
    assert_eq!(
        VoteHandlingStatus::begin(BulkVotePlan::NothingSelected, 5),
        VoteHandlingStatus::Failed(
            "No votes selected. Please select votes to cast or schedule.".to_string()
        )
    );
    assert_eq!(
        VoteHandlingStatus::begin(BulkVotePlan::CastAndSchedule, 5),
        VoteHandlingStatus::CastingVotes(5)
    );
    assert_eq!(
        VoteHandlingStatus::begin(BulkVotePlan::CastOnly, 6),
        VoteHandlingStatus::CastingVotes(6)
    );
    assert_eq!(
        VoteHandlingStatus::begin(BulkVotePlan::ScheduleOnly, 5),
        VoteHandlingStatus::SchedulingVotes
    );
    assert_eq!(
        VoteHandlingStatus::SchedulingVotes.after_votes_scheduled(),
        VoteHandlingStatus::Completed
    );
    assert_eq!(
        VoteHandlingStatus::CastingVotes(3).after_votes_scheduled(),
        VoteHandlingStatus::CastingVotes(3)
    );
}

#[test]
fn refresh_is_not_begun_twice() {
    assert_eq!(
        RefreshingStatus::NotRefreshing.request(10),
        (RefreshingStatus::Refreshing(10), true)
    );
    assert_eq!(
        RefreshingStatus::Refreshing(10).request(20),
        (RefreshingStatus::Refreshing(10), false)
    );
    assert_eq!(RefreshingStatus::Refreshing(10).elapsed_seconds(25), Some(15));
    assert_eq!(RefreshingStatus::Refreshing(10).elapsed_seconds(5), Some(0));
    assert_eq!(RefreshingStatus::NotRefreshing.elapsed_seconds(5), None);
}

#[test]
fn toggle_bit_changes_one_bit_and_remembers_it() {
    let mut grid = U256EntropyGrid::from_number([0u8; 32]);
    assert!(!grid.was_bit_different(0));
    assert!(grid.was_bit_different(9));
    grid.toggle_bit(1, 1);
    let mut expected = [0u8; 32];
    expected[1] = 0b10;
    assert_eq!(grid.random_number(), expected);
    assert_eq!(grid.last_bit_changed(), 9);
    assert!(!grid.was_bit_different(9));
    assert!(grid.bit(9));
    assert!(!grid.bit(8));
    grid.toggle_bit(1, 1);
    assert_eq!(grid.random_number(), [0u8; 32]);
    grid.toggle_bit(31, 7);
    assert_eq!(grid.random_number()[31], 0x80);
    assert_eq!(grid.last_bit_changed(), 255);
}

#[test]
fn touch_toggles_on_click_and_on_arrival() {
    let mut grid = U256EntropyGrid::from_number([0xffu8; 32]);
    assert!(!grid.touch(0, true, false));
    assert!(grid.touch(0, false, true));
    assert_eq!(grid.random_number()[0], 0xfe);
    assert!(grid.touch(17, true, false));
    assert_eq!(grid.random_number()[2], 0xfd);
    assert!(!grid.touch(17, true, false));
    assert!(!grid.touch(40, false, false));
    assert_eq!(grid.last_bit_changed(), 17);
}

#[test]
fn mixing_is_exclusive_or_place_by_place() {
    let mut number = [0u8; 32];
    let mut fresh = [0u8; 32];
    for i in 0..32 {
        number[i] = i as u8;
        fresh[i] = 0xf0;
    }
    let grid = U256EntropyGrid::from_number(number);
    let mixed = grid.mixed_with(&fresh);
    for i in 0..32 {
        assert_eq!(mixed[i], (i as u8) ^ 0xf0);
    }
    assert_eq!(U256EntropyGrid::from_number(mixed).mixed_with(&fresh), number);
}

#[test]
fn number_is_shown_in_lower_case_hexadecimal() {
    let mut number = [0u8; 32];
    number[0] = 0x01;
    number[1] = 0xab;
    number[31] = 0xf0;
    let grid = U256EntropyGrid::from_number(number);
    let text = grid.number_as_hex();
    assert_eq!(text.len(), 64);
    assert_eq!(
        text,
        "01ab0000000000000000000000000000000000000000000000000000000000f0"
    );
}

#[test]
fn new_grids_are_random() {
    let a = U256EntropyGrid::new();
    let b = U256EntropyGrid::new();
    assert_eq!(a.last_bit_changed(), 0);
    assert_ne!(a.random_number(), b.random_number());
    let grid = U256EntropyGrid::from_number([0u8; 32]);
    assert_ne!(grid.random_number_with_user_input(), grid.random_number_with_user_input());
}

#[test]
fn allowed_purposes_by_transaction_type() {
    assert_eq!(TransactionType::RegisterContract.allowed_purposes(), vec![Purpose::AUTHENTICATION]);
    assert_eq!(TransactionType::UpdateContract.allowed_purposes(), vec![Purpose::AUTHENTICATION]);
    assert_eq!(TransactionType::Transfer.allowed_purposes(), vec![Purpose::TRANSFER]);
    assert_eq!(TransactionType::Withdraw.allowed_purposes(), vec![Purpose::TRANSFER, Purpose::OWNER]);
    assert_eq!(TransactionType::DocumentAction.allowed_purposes(), vec![Purpose::AUTHENTICATION]);
    assert_eq!(TransactionType::TokenAction.allowed_purposes(), vec![Purpose::AUTHENTICATION]);
    assert_eq!(TransactionType::TokenTransfer.allowed_purposes(), vec![Purpose::TRANSFER, Purpose::AUTHENTICATION]);
    assert_eq!(TransactionType::TokenClaim.allowed_purposes(), vec![Purpose::TRANSFER, Purpose::AUTHENTICATION]);
}

#[test]
fn allowed_security_levels_by_transaction_type() {
    assert_eq!(TransactionType::RegisterContract.allowed_security_levels(), vec![SecurityLevel::CRITICAL, SecurityLevel::HIGH]);
    assert_eq!(TransactionType::UpdateContract.allowed_security_levels(), vec![SecurityLevel::CRITICAL]);
    assert_eq!(TransactionType::Transfer.allowed_security_levels(), vec![SecurityLevel::CRITICAL]);
    assert_eq!(TransactionType::Withdraw.allowed_security_levels(), vec![SecurityLevel::CRITICAL]);
    assert_eq!(
        TransactionType::DocumentAction.allowed_security_levels(),
        vec![SecurityLevel::CRITICAL, SecurityLevel::HIGH, SecurityLevel::MEDIUM]
    );
    assert_eq!(TransactionType::TokenAction.allowed_security_levels(), vec![SecurityLevel::CRITICAL]);
    assert_eq!(TransactionType::TokenTransfer.allowed_security_levels(), vec![SecurityLevel::CRITICAL]);
    assert_eq!(TransactionType::TokenClaim.allowed_security_levels(), vec![SecurityLevel::CRITICAL]);
}

#[test]
fn transaction_type_labels() {
    assert_eq!(TransactionType::RegisterContract.label(), "Register Contract");
    assert_eq!(TransactionType::UpdateContract.label(), "Update Contract");
    assert_eq!(TransactionType::Transfer.label(), "Transfer");
    assert_eq!(TransactionType::Withdraw.label(), "Withdraw");
    assert_eq!(TransactionType::DocumentAction.label(), "Document Action");
    assert_eq!(TransactionType::TokenAction.label(), "Token Action");
    assert_eq!(TransactionType::TokenTransfer.label(), "Token Transfer");
    assert_eq!(TransactionType::TokenClaim.label(), "Token Claim");
}

#[test]
fn document_security_levels_reach_down_to_the_requirement() {
    assert_eq!(document_security_levels(SecurityLevel::MASTER), Vec::<SecurityLevel>::new());
    assert_eq!(document_security_levels(SecurityLevel::CRITICAL), vec![SecurityLevel::CRITICAL]);
    assert_eq!(document_security_levels(SecurityLevel::HIGH), vec![SecurityLevel::CRITICAL, SecurityLevel::HIGH]);
    assert_eq!(document_security_levels(SecurityLevel::MEDIUM), vec![SecurityLevel::CRITICAL, SecurityLevel::HIGH, SecurityLevel::MEDIUM]);
    assert_eq!(security_levels_for(TransactionType::DocumentAction, Some(SecurityLevel::HIGH)), vec![SecurityLevel::CRITICAL, SecurityLevel::HIGH]);
    assert_eq!(
        security_levels_for(TransactionType::DocumentAction, None),
        vec![SecurityLevel::CRITICAL, SecurityLevel::HIGH, SecurityLevel::MEDIUM]
    );
    assert_eq!(security_levels_for(TransactionType::Transfer, Some(SecurityLevel::MEDIUM)), vec![SecurityLevel::CRITICAL]);
    assert_eq!(SecurityLevel::MEDIUM.rank(), 3);
    assert_eq!(SecurityLevel::MASTER.rank(), 0);
}

#[test]
fn keys_are_offered_by_purpose_and_level_and_all_of_them_to_developers() {
    let purposes = TransactionType::Withdraw.allowed_purposes();
    let levels = TransactionType::Withdraw.allowed_security_levels();
    let choose = |dev, purpose, level| key_choice(dev, &purposes, &levels, purpose, level);
    assert_eq!(choose(false, Purpose::OWNER, SecurityLevel::CRITICAL), KeyChoice::Offered);
    assert_eq!(choose(true, Purpose::OWNER, SecurityLevel::CRITICAL), KeyChoice::Offered);
    assert_eq!(choose(false, Purpose::OWNER, SecurityLevel::HIGH), KeyChoice::Hidden);
    assert_eq!(choose(false, Purpose::VOTING, SecurityLevel::CRITICAL), KeyChoice::Hidden);
    assert_eq!(choose(true, Purpose::VOTING, SecurityLevel::CRITICAL), KeyChoice::OfferedToDeveloper);
    assert_eq!(choose(true, Purpose::TRANSFER, SecurityLevel::MASTER), KeyChoice::OfferedToDeveloper);
}

#[test]
fn group_action_text_by_standing() {
    assert_eq!(group_action_standing(true, false, None, 5), GroupActionStanding::SigningActiveAction);
    assert_eq!(group_action_standing(true, true, Some(9), 5), GroupActionStanding::SigningActiveAction);
    assert_eq!(group_action_standing(false, false, Some(9), 5), GroupActionStanding::NoGroup);
    assert_eq!(group_action_standing(false, true, None, 5), GroupActionStanding::NotMember);
    assert_eq!(group_action_standing(false, true, Some(5), 5), GroupActionStanding::Unilateral);
    assert_eq!(group_action_standing(false, true, Some(4), 5), GroupActionStanding::Initiating);
    assert_eq!(group_action_text(GroupActionStanding::SigningActiveAction, "Mint"), "Sign Mint");
    assert_eq!(group_action_text(GroupActionStanding::NotMember, "Mint"), "Test Mint (Should fail)");
    assert_eq!(group_action_text(GroupActionStanding::Initiating, "Mint"), "Initiate Group Mint");
    assert_eq!(group_action_text(GroupActionStanding::Unilateral, "Mint"), "Mint");
    assert_eq!(group_action_text(GroupActionStanding::NoGroup, "Burn"), "Burn");
}

#[test]
fn contracts_are_searched_without_regard_to_case() {
    assert!(contract_matches_search("My Contract", "contr"));
    assert!(contract_matches_search("My Contract", "MY C"));
    assert!(contract_matches_search("My Contract", ""));
    assert!(!contract_matches_search("My Contract", "contracts"));
    assert!(contract_matches_search("GWRSAVFMjXx8HpQFaNJMqBV7MBgMK4br5UESsB4S31Ec", "gwrs"));
}

#[test]
fn no_key_is_suitable_when_all_are_hidden() {
    assert!(no_suitable_keys(&vec![]));
    assert!(no_suitable_keys(&vec![KeyChoice::Hidden, KeyChoice::Hidden]));
    assert!(!no_suitable_keys(&vec![KeyChoice::Hidden, KeyChoice::Offered]));
    assert!(!no_suitable_keys(&vec![KeyChoice::OfferedToDeveloper]));
}
