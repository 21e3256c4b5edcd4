use dash_evo_tool::contested_names::{ResourceVoteChoice, SelectedVote};
use dash_evo_tool::dpns::{
    BulkVotePlan, RefreshingStatus, ScheduledVoteCastingStatus, VoteHandlingStatus, VoteOption,
};
use dash_evo_tool::dpns_screen::{
    bulk_apply_votes, known_index, known_status, message_effects, partial_success_message,
    refresh_scheduled_votes, tally_vote_results, vote_results_message, BackendTaskSuccessResult,
    BulkVotes, DPNSStatus, MessageEffects, ScheduledDPNSVote, TrackedVote, VoteResult,
};
use dash_evo_tool::text::{contains_bytes, text_contains, text_eq, MessageType};
use dash_evo_tool::tokens::UpdateTokenConfigStatus;

fn scheduled(name: &str, voter: u8, executed: bool) -> ScheduledDPNSVote {
    ScheduledDPNSVote {
        contested_name: name.to_string(),
        voter_id: [voter; 32],
        choice: ResourceVoteChoice::Lock,
        unix_timestamp: 10,
        executed_successfully: executed,
    }
}

fn followed(name: &str, voter: u8, status: ScheduledVoteCastingStatus) -> TrackedVote {
    TrackedVote { vote: scheduled(name, voter, false), status }
}

#[test]
fn refreshed_votes_keep_what_was_known_of_their_casting() {
    let known = vec![
        followed("a", 1, ScheduledVoteCastingStatus::InProgress),
        followed("b", 1, ScheduledVoteCastingStatus::Failed),
        followed("c", 1, ScheduledVoteCastingStatus::Completed),
        followed("a", 1, ScheduledVoteCastingStatus::Failed),
    ];
    assert_eq!(known_status(&known, "a", &[1u8; 32]), Some(ScheduledVoteCastingStatus::InProgress));
    assert_eq!(known_status(&known, "a", &[2u8; 32]), None);
    let fresh = vec![
        scheduled("a", 1, false),
        scheduled("b", 1, false),
        scheduled("c", 1, false),
        scheduled("d", 1, false),
        scheduled("a", 2, false),
        scheduled("b", 1, true),
    ];
    let result = refresh_scheduled_votes(fresh, &known);
    let statuses: Vec<ScheduledVoteCastingStatus> = result.iter().map(|t| t.status).collect();
    assert_eq!(
        statuses,
        vec![
            ScheduledVoteCastingStatus::InProgress,
            ScheduledVoteCastingStatus::Failed,
            ScheduledVoteCastingStatus::NotStarted,
            ScheduledVoteCastingStatus::NotStarted,
            ScheduledVoteCastingStatus::NotStarted,
            ScheduledVoteCastingStatus::Completed,
        ]
    );
    assert_eq!(result[4].vote, scheduled("a", 2, false));
    assert_eq!(result[5].vote, scheduled("b", 1, true));
    assert_eq!(refresh_scheduled_votes(vec![], &known), vec![]);
}

#[test]
fn selected_votes_are_cast_now_or_scheduled_by_the_option_of_each_identity() {
    let identities = vec![[1u8; 32], [2u8; 32], [3u8; 32], [4u8; 32], [5u8; 32]];
    let options = vec![
        VoteOption::Scheduled { days: 0, hours: 1, minutes: 0 },
        VoteOption::CastNow,
        VoteOption::NoVote,
        VoteOption::Scheduled { days: 1, hours: 0, minutes: 1 },
    ];
    let selected = vec![
        SelectedVote {
            contested_name: "a".to_string(),
            vote_choice: ResourceVoteChoice::Abstain,
            end_time: None,
        },
        SelectedVote {
            contested_name: "b".to_string(),
            vote_choice: ResourceVoteChoice::TowardsIdentity([9u8; 32]),
            end_time: Some(7),
        },
    ];
    let votes = bulk_apply_votes(&identities, &options, &selected, 1_000);
    let vote = |name: &str, voter: u8, choice, time| ScheduledDPNSVote {
        contested_name: name.to_string(),
        voter_id: [voter; 32],
        choice,
        unix_timestamp: time,
        executed_successfully: false,
    };
    assert_eq!(
        votes,
        BulkVotes {
            immediate: vec![[2u8; 32]],
            scheduled: vec![
                vote("a", 1, ResourceVoteChoice::Abstain, 3_601_000),
                vote("b", 1, ResourceVoteChoice::TowardsIdentity([9u8; 32]), 3_601_000),
                vote("a", 4, ResourceVoteChoice::Abstain, 86_461_000),
                vote("b", 4, ResourceVoteChoice::TowardsIdentity([9u8; 32]), 86_461_000),
            ],
        }
    );
    assert_eq!(votes.plan(), BulkVotePlan::CastAndSchedule);
    let nothing = bulk_apply_votes(&identities, &vec![VoteOption::NoVote; 5], &selected, 0);
    assert_eq!(nothing.plan(), BulkVotePlan::NothingSelected);
    let none_selected = bulk_apply_votes(&identities, &options, &vec![], 0);
    assert_eq!(none_selected.plan(), BulkVotePlan::CastOnly);
    assert!(none_selected.scheduled.is_empty());
}

#[test]
fn words_are_found_in_a_message() {
    assert!(text_contains("Error casting scheduled vote: timeout", "Error casting scheduled vote"));
    assert!(text_contains("x Votes scheduled", "Votes scheduled"));
    assert!(!text_contains("Votes schedule", "Votes scheduled"));
    assert!(text_contains("anything", ""));
    assert!(text_contains("", ""));
    assert!(!text_contains("", "a"));
    assert!(contains_bytes(b"aab", b"ab"));
    assert!(!contains_bytes(b"aab", b"ba"));
    assert!(contains_bytes(b"abc", b"abc"));
    assert!(!contains_bytes(b"ab", b"abc"));
}

#[test]
fn message_effects_by_words() {
    let none = MessageEffects {
        scheduled_vote_failed: false,
        scheduled_vote_cast: false,
        refresh_ended: false,
        votes_scheduled: false,
    };
    assert_eq!(message_effects("hello"), none);
    assert_eq!(
        message_effects("Error casting scheduled vote"),
        MessageEffects { scheduled_vote_failed: true, ..none }
    );
    assert_eq!(
        message_effects("Successfully cast scheduled vote"),
        MessageEffects { scheduled_vote_cast: true, ..none }
    );
    for words in [
        "Successfully refreshed DPNS contests",
        "Successfully refreshed loaded identities dpns names",
        "Contested resource query failed: offline",
        "Error refreshing owned DPNS names",
    ] {
        assert_eq!(message_effects(words), MessageEffects { refresh_ended: true, ..none });
    }
    assert_eq!(
        message_effects("Votes scheduled"),
        MessageEffects { votes_scheduled: true, ..none }
    );
}

fn status() -> DPNSStatus {
    DPNSStatus {
        scheduled_votes: vec![
            followed("a", 1, ScheduledVoteCastingStatus::InProgress),
            followed("b", 1, ScheduledVoteCastingStatus::NotStarted),
            followed("c", 1, ScheduledVoteCastingStatus::Completed),
            followed("d", 1, ScheduledVoteCastingStatus::InProgress),
        ],
        scheduled_vote_cast_in_progress: true,
        refreshing_status: RefreshingStatus::Refreshing(5),
        bulk_vote_handling_status: VoteHandlingStatus::SchedulingVotes,
        bulk_schedule_message: None,
    }
}

#[test]
fn failed_casting_fails_the_votes_under_way() {
    let mut screen = status();
    screen.display_message("Error casting scheduled vote: no key");
    let statuses: Vec<ScheduledVoteCastingStatus> =
        screen.scheduled_votes.iter().map(|t| t.status).collect();
    assert_eq!(
        statuses,
        vec![
            ScheduledVoteCastingStatus::Failed,
            ScheduledVoteCastingStatus::NotStarted,
            ScheduledVoteCastingStatus::Completed,
            ScheduledVoteCastingStatus::Failed,
        ]
    );
    assert!(!screen.scheduled_vote_cast_in_progress);
    assert_eq!(screen.refreshing_status, RefreshingStatus::Refreshing(5));
    assert_eq!(screen.bulk_vote_handling_status, VoteHandlingStatus::SchedulingVotes);
}

#[test]
fn other_messages_change_what_they_speak_of() {
    let mut screen = status();
    screen.display_message("Successfully cast scheduled vote");
    assert!(!screen.scheduled_vote_cast_in_progress);
    assert_eq!(screen.scheduled_votes, status().scheduled_votes);

    let mut screen = status();
    screen.display_message("Contested resource query failed");
    assert_eq!(screen.refreshing_status, RefreshingStatus::NotRefreshing);
    assert!(screen.scheduled_vote_cast_in_progress);

    let mut screen = status();
    screen.display_message("Votes scheduled");
    assert_eq!(screen.bulk_vote_handling_status, VoteHandlingStatus::Completed);
    screen.bulk_vote_handling_status = VoteHandlingStatus::CastingVotes(1);
    screen.display_message("Votes scheduled");
    assert_eq!(screen.bulk_vote_handling_status, VoteHandlingStatus::CastingVotes(1));

    let mut screen = status();
    screen.display_message("nothing of note");
    assert_eq!(screen, status());
}

#[test]
fn vote_results_are_summed_up() {
    assert_eq!(
        vote_results_message(3, &vec![]),
        (MessageType::Success, "Votes all cast successfully.".to_string())
    );
    assert_eq!(
        vote_results_message(0, &vec!["a failed".to_string(), "b failed".to_string()]),
        (MessageType::Error, "Errors:\n\na failed\n\nb failed".to_string())
    );
    assert_eq!(
        vote_results_message(2, &vec!["a \"failed\"".to_string(), "b".to_string()]),
        (
            MessageType::Error,
            "Successes: 2/4\n\nErrors:\n\n\"a \\\"failed\\\"\\n\\nb\"".to_string()
        )
    );
}

#[test]
fn texts_are_compared_by_their_content() {
    assert!(text_eq("al1ce", "al1ce"));
    assert!(!text_eq("al1ce", "al1c"));
    assert!(text_eq("", ""));
}

#[test]
fn token_update_ends_with_the_report_of_the_backend() {
    let updating = UpdateTokenConfigStatus::Updating(77);
    assert_eq!(
        updating.after_message("Successfully updated token config item", MessageType::Success),
        UpdateTokenConfigStatus::NotUpdating
    );
    assert_eq!(
        updating.after_message("Failed to update token config: x", MessageType::Error),
        UpdateTokenConfigStatus::NotUpdating
    );
    assert_eq!(
        updating.after_message("Failed to update token config: x", MessageType::Success),
        updating
    );
    assert_eq!(
        updating.after_message("Successfully updated token config item", MessageType::Error),
        updating
    );
    assert_eq!(
        updating.after_message("Successfully updated token config item", MessageType::Info),
        updating
    );
    assert_eq!(updating.after_message("something else", MessageType::Success), updating);
}

fn cast(name: &str) -> VoteResult {
    (name.to_string(), ResourceVoteChoice::Abstain, Ok(()))
}

fn refused(name: &str, words: &str) -> VoteResult {
    (name.to_string(), ResourceVoteChoice::Lock, Err(words.to_string()))
}

#[test]
fn outcomes_of_votes_are_tallied_in_their_order() {
    let results = vec![cast("a"), refused("b", "no key"), cast("c"), refused("d", "too late")];
    assert_eq!(
        tally_vote_results(&results),
        (2, vec!["no key".to_string(), "too late".to_string()])
    );
    assert_eq!(tally_vote_results(&vec![]), (0, vec![]));
    assert_eq!(tally_vote_results(&vec![cast("a")]), (1, vec![]));
}

#[test]
fn partial_success_names_both_counts_and_quotes_the_errors() {
    assert_eq!(
        partial_success_message("2".to_string(), "4".to_string(), "\"x\"".to_string()),
        (MessageType::Error, "Successes: 2/4\n\nErrors:\n\n\"x\"".to_string())
    );
    assert_eq!(
        vote_results_message(10, &vec!["tab\there".to_string()]),
        (MessageType::Error, "Successes: 10/11\n\nErrors:\n\n\"tab\\there\"".to_string())
    );
    assert_eq!(
        vote_results_message(1, &vec!["x".to_string(); 99]).1.lines().next(),
        Some("Successes: 1/100")
    );
}

#[test]
fn vote_results_end_the_handling_and_show_their_sum() {
    for before in [
        VoteHandlingStatus::NotStarted,
        VoteHandlingStatus::CastingVotes(5),
        VoteHandlingStatus::SchedulingVotes,
        VoteHandlingStatus::Failed("old".to_string()),
    ] {
        let mut screen = status();
        screen.bulk_vote_handling_status = before;
        screen.display_task_result(BackendTaskSuccessResult::DPNSVoteResults(vec![
            cast("a"),
            refused("b", "no key"),
            cast("c"),
        ]));
        assert_eq!(screen.bulk_vote_handling_status, VoteHandlingStatus::Completed);
        assert_eq!(
            screen.bulk_schedule_message,
            Some((MessageType::Error, "Successes: 2/3\n\nErrors:\n\n\"no key\"".to_string()))
        );
        assert_eq!(screen.scheduled_votes, status().scheduled_votes);
        assert!(screen.scheduled_vote_cast_in_progress);
        assert_eq!(screen.refreshing_status, RefreshingStatus::Refreshing(5));
    }
    let mut screen = status();
    screen.display_task_result(BackendTaskSuccessResult::DPNSVoteResults(vec![cast("a")]));
    assert_eq!(screen.bulk_vote_handling_status, VoteHandlingStatus::Completed);
    assert_eq!(
        screen.bulk_schedule_message,
        Some((MessageType::Success, "Votes all cast successfully.".to_string()))
    );
    let mut screen = status();
    screen.display_task_result(BackendTaskSuccessResult::DPNSVoteResults(vec![
        refused("a", "x"),
        refused("b", "y"),
    ]));
    assert_eq!(screen.bulk_vote_handling_status, VoteHandlingStatus::Completed);
    assert_eq!(
        screen.bulk_schedule_message,
        Some((MessageType::Error, "Errors:\n\nx\n\ny".to_string()))
    );
    let mut screen = status();
    screen.display_task_result(BackendTaskSuccessResult::DPNSVoteResults(vec![]));
    assert_eq!(screen.bulk_vote_handling_status, VoteHandlingStatus::Completed);
    assert_eq!(
        screen.bulk_schedule_message,
        Some((MessageType::Success, "Votes all cast successfully.".to_string()))
    );
}

#[test]
fn words_of_scheduled_votes_end_the_scheduling() {
    let mut screen = status();
    screen.display_task_result(BackendTaskSuccessResult::Message(
        "3 Votes scheduled for later".to_string(),
    ));
    assert_eq!(screen.bulk_vote_handling_status, VoteHandlingStatus::Completed);
    assert_eq!(
        screen.bulk_schedule_message,
        Some((MessageType::Success, "Votes scheduled".to_string()))
    );
    let mut screen = status();
    screen.bulk_vote_handling_status = VoteHandlingStatus::CastingVotes(9);
    screen.display_task_result(BackendTaskSuccessResult::Message("Votes scheduled".to_string()));
    assert_eq!(screen.bulk_vote_handling_status, VoteHandlingStatus::CastingVotes(9));
    assert_eq!(
        screen.bulk_schedule_message,
        Some((MessageType::Success, "Votes scheduled".to_string()))
    );
    let mut screen = status();
    screen.bulk_schedule_message = Some((MessageType::Error, "kept".to_string()));
    screen.display_task_result(BackendTaskSuccessResult::Message("votes scheduled".to_string()));
    assert_eq!(screen.bulk_vote_handling_status, VoteHandlingStatus::SchedulingVotes);
    assert_eq!(screen.bulk_schedule_message, Some((MessageType::Error, "kept".to_string())));
}

#[test]
fn cast_scheduled_vote_completes_the_first_vote_of_that_name_and_voter() {
    let mut screen = status();
    screen.scheduled_votes.push(followed("b", 1, ScheduledVoteCastingStatus::Failed));
    assert_eq!(known_index(&screen.scheduled_votes, "b", &[1u8; 32]), Some(1));
    assert_eq!(known_index(&screen.scheduled_votes, "b", &[2u8; 32]), None);
    assert_eq!(known_index(&screen.scheduled_votes, "z", &[1u8; 32]), None);
    screen.display_task_result(BackendTaskSuccessResult::CastScheduledVote(scheduled("b", 1, true)));
    let statuses: Vec<ScheduledVoteCastingStatus> =
        screen.scheduled_votes.iter().map(|t| t.status).collect();
    assert_eq!(
        statuses,
        vec![
            ScheduledVoteCastingStatus::InProgress,
            ScheduledVoteCastingStatus::Completed,
            ScheduledVoteCastingStatus::Completed,
            ScheduledVoteCastingStatus::InProgress,
            ScheduledVoteCastingStatus::Failed,
        ]
    );
    assert_eq!(screen.scheduled_votes[1].vote, scheduled("b", 1, false));
    assert_eq!(screen.bulk_vote_handling_status, VoteHandlingStatus::SchedulingVotes);
    assert_eq!(screen.bulk_schedule_message, None);
    let mut before = status();
    before.scheduled_votes[1].status = ScheduledVoteCastingStatus::Completed;
    before.scheduled_votes.push(followed("b", 1, ScheduledVoteCastingStatus::Failed));
    assert_eq!(screen, before);
    screen.display_task_result(BackendTaskSuccessResult::CastScheduledVote(scheduled("z", 1, true)));
    assert_eq!(screen, before);
    screen.display_task_result(BackendTaskSuccessResult::Other);
    assert_eq!(screen, before);
}
