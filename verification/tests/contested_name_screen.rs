use dash_evo_tool::chain::{Address, AddressKind, Network};
use dash_evo_tool::contested_names::{
    ending_time_text, ending_time_text_of, is_vote_selected, last_updated_text,
    last_updated_text_of, lowered_name_matches, name_matches_filter, normalized_filter,
    selection_index, signed, toggle_selected_vote, Contestant, ContestedName,
    ResourceVoteChoice, SelectedVote,
};
use dash_evo_tool::derivation::DerivationPath;

fn vote(name: &str, choice: ResourceVoteChoice, end_time: Option<u64>) -> SelectedVote {
    SelectedVote { contested_name: name.to_string(), vote_choice: choice, end_time }
}

#[test]
fn clicking_a_choice_selects_it() {
    let mut votes = Vec::new();
    toggle_selected_vote(&mut votes, "al1ce", ResourceVoteChoice::Lock, Some(5));
    toggle_selected_vote(&mut votes, "b0b", ResourceVoteChoice::Abstain, None);
    assert_eq!(
        votes,
        vec![
            vote("al1ce", ResourceVoteChoice::Lock, Some(5)),
            vote("b0b", ResourceVoteChoice::Abstain, None),
        ]
    );
    assert!(is_vote_selected(&votes, "al1ce", ResourceVoteChoice::Lock));
    assert!(!is_vote_selected(&votes, "al1ce", ResourceVoteChoice::Abstain));
    assert!(!is_vote_selected(&votes, "car0l", ResourceVoteChoice::Lock));
    assert_eq!(selection_index(&votes, "b0b"), Some(1));
    assert_eq!(selection_index(&votes, "car0l"), None);
}

#[test]
fn clicking_another_choice_replaces_the_selection() {
    let mut votes = vec![
        vote("al1ce", ResourceVoteChoice::Lock, Some(5)),
        vote("b0b", ResourceVoteChoice::Abstain, None),
    ];
    toggle_selected_vote(
        &mut votes,
        "al1ce",
        ResourceVoteChoice::TowardsIdentity([7u8; 32]),
        Some(99),
    );
    assert_eq!(
        votes,
        vec![
            vote("al1ce", ResourceVoteChoice::TowardsIdentity([7u8; 32]), Some(5)),
            vote("b0b", ResourceVoteChoice::Abstain, None),
        ]
    );
    toggle_selected_vote(
        &mut votes,
        "al1ce",
        ResourceVoteChoice::TowardsIdentity([8u8; 32]),
        None,
    );
    assert_eq!(votes[0].vote_choice, ResourceVoteChoice::TowardsIdentity([8u8; 32]));
}

#[test]
fn clicking_the_selected_choice_removes_the_selection() {
    let mut votes = vec![
        vote("al1ce", ResourceVoteChoice::Lock, Some(5)),
        vote("b0b", ResourceVoteChoice::Abstain, None),
    ];
    toggle_selected_vote(&mut votes, "al1ce", ResourceVoteChoice::Lock, Some(5));
    assert_eq!(votes, vec![vote("b0b", ResourceVoteChoice::Abstain, None)]);
    toggle_selected_vote(&mut votes, "b0b", ResourceVoteChoice::Abstain, Some(1));
    assert!(votes.is_empty());
}

fn contest(locked: Option<u32>, contestants: Option<Vec<(&str, u32)>>) -> ContestedName {
    ContestedName {
        normalized_contested_name: "al1ce".to_string(),
        locked_votes: locked,
        abstain_votes: None,
        awarded_to: None,
        end_time: None,
        contestants: contestants.map(|list| {
            list.into_iter()
                .enumerate()
                .map(|(i, (name, votes))| Contestant {
                    id: [i as u8; 32],
                    name: name.to_string(),
                    votes,
                })
                .collect()
        }),
        last_updated: None,
    }
}

#[test]
fn locked_votes_are_bold_when_they_lead() {
    assert!(!contest(None, None).is_locked_votes_bold());
    assert!(contest(Some(1), None).is_locked_votes_bold());
    assert!(contest(Some(1), Some(vec![])).is_locked_votes_bold());
    let led = contest(Some(5), Some(vec![("alice", 3), ("Alice", 5), ("ALICE", 4)]));
    assert_eq!(led.max_contestant_votes(), 5);
    assert!(!led.is_locked_votes_bold());
    assert!(contest(Some(6), Some(vec![("alice", 3), ("Alice", 5)])).is_locked_votes_bold());
}

#[test]
fn contest_is_shown_under_the_names_of_its_contestants() {
    assert_eq!(contest(None, None).shown_name(), "al1ce");
    assert_eq!(contest(None, Some(vec![])).shown_name(), "al1ce");
    assert_eq!(contest(None, Some(vec![("Alice", 1)])).shown_name(), "Alice");
    assert_eq!(contest(None, Some(vec![("Alice", 1), ("Alice", 2)])).shown_name(), "Alice");
    assert_eq!(
        contest(None, Some(vec![("Alice", 1), ("alice", 2), ("ALICE", 0)])).shown_name(),
        "Alice or alice or ALICE"
    );
    assert_eq!(
        contest(None, Some(vec![("Alice", 1), ("Alice", 2), ("alice", 2)])).shown_name(),
        "Alice or Alice or alice"
    );
}

#[test]
fn ending_time_is_written_with_date_and_distance() {
    assert_eq!(ending_time_text(None, "in a day"), "Fetching");
    assert_eq!(
        ending_time_text(Some(1_431_648_000_000), "in a day"),
        "2015-05-15 00:00:00 (in a day)"
    );
    assert_eq!(ending_time_text(Some(0), "56 years ago"), "1970-01-01 00:00:00 (56 years ago)");
    assert_eq!(ending_time_text(Some(u64::MAX), "now"), "1969-12-31 23:59:59 (now)");
    assert_eq!(ending_time_text(Some(i64::MAX as u64), "later"), "Invalid timestamp");
    assert_eq!(ending_time_text_of(None, "x"), "Invalid timestamp");
    assert_eq!(ending_time_text_of(Some("date".to_string()), "x"), "date (x)");
}

#[test]
fn last_look_is_written_as_now_when_seconds_old() {
    assert_eq!(last_updated_text(None, "a minute ago", false), "Fetching");
    assert_eq!(last_updated_text(Some(1_431_648_000), "30 seconds ago", true), "now");
    assert_eq!(last_updated_text(Some(1_431_648_000), "a minute ago", false), "a minute ago");
    assert_eq!(last_updated_text(Some(i64::MAX as u64), "a minute ago", false), "Invalid timestamp");
    assert_eq!(last_updated_text_of(false, "a minute ago", true), "Invalid timestamp");
    assert_eq!(last_updated_text_of(true, "a minute ago", true), "now");
}

#[test]
fn unsigned_times_wrap_to_signed() {
    assert_eq!(signed(0), 0);
    assert_eq!(signed(i64::MAX as u64), i64::MAX);
    assert_eq!(signed(i64::MAX as u64 + 1), i64::MIN);
    assert_eq!(signed(u64::MAX), -1);
}

#[test]
fn stored_addresses_and_paths_are_read_back() {
    let address = Address { network: Network::Devnet, kind: AddressKind::ScriptHash, hash: [0xab; 20] };
    let bytes = address.to_bytes();
    assert_eq!(bytes.len(), 22);
    assert_eq!(&bytes[..2], &[2u8, 1]);
    assert_eq!(Address::from_bytes(&bytes), Some(address));
    let mut wrong = bytes.clone();
    wrong[0] = 4;
    assert_eq!(Address::from_bytes(&wrong), None);
    wrong[0] = 0;
    wrong[1] = 2;
    assert_eq!(Address::from_bytes(&wrong), None);
    assert_eq!(Address::from_bytes(&bytes[..21].to_vec()), None);
    assert_eq!(Network::from_code(3), Some(Network::Regtest));
    assert_eq!(Network::from_code(4), None);
    assert_eq!(Network::Testnet.name(), "testnet");

    let path = DerivationPath { components: vec![0x8000_002c, 1, 0xffff_ffff, 0] };
    let stored = path.to_bytes();
    assert_eq!(
        stored,
        vec![0x80, 0, 0, 0x2c, 0, 0, 0, 1, 0xff, 0xff, 0xff, 0xff, 0, 0, 0, 0]
    );
    assert_eq!(DerivationPath::from_bytes(&stored), Some(path));
    assert_eq!(DerivationPath::from_bytes(&vec![1, 2, 3]), None);
    assert_eq!(DerivationPath::from_bytes(&vec![]), Some(DerivationPath { components: vec![] }));
}

#[test]
fn filter_is_held_against_names_in_lower_case_with_look_alikes_as_digits() {
    assert!(name_matches_filter("a11ce", ""));
    assert!(name_matches_filter("a11ce", "AL"));
    assert!(name_matches_filter("a11ce", "l1C"));
    assert!(!name_matches_filter("a11ce", "alice"));
    assert!(name_matches_filter("b0b", "Bob"));
    assert!(name_matches_filter("b0b", "0B"));
    assert!(!name_matches_filter("b0b", "bobby"));
    assert!(!name_matches_filter("alice", "alice"));
    assert!(name_matches_filter("A1CE", "a1"));
    assert_eq!(normalized_filter(b"hello world"), b"he110 w0r1d".to_vec());
    assert_eq!(normalized_filter(b"LOL"), b"L0L".to_vec());
    assert!(lowered_name_matches("he110", "hello"));
    assert!(!lowered_name_matches("hello", "hello"));
}
