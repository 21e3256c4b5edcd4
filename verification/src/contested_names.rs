//! Contested names as the screen lists them: which of them a filter
//! keeps, under which name a contest is shown, which vote the user has
//! selected for it, and how its times are written.

use crate::chain::{bytes_eq, Identifier};
use crate::outside::{
    join_texts, spec_join, spec_lowercase, spec_utc_date_time_text, spec_utc_seconds_are_valid,
    text_views, to_lowercase, utc_date_time_text, utc_seconds_are_valid,
};
use crate::text::{bytes_contain, contains_bytes, text_eq};
use crate::views::text_option_view;
use vstd::prelude::*;
use vstd::std_specs::cmp::PartialEqSpecImpl;
use vstd::string::StringSliceAdditionalSpecFns;

verus! {

/// What a vote on a contested name is cast for.
#[derive(Clone, Copy, Debug, Eq)]
pub enum ResourceVoteChoice {
    TowardsIdentity(Identifier),
    Abstain,
    Lock,
}

impl PartialEq for ResourceVoteChoice {
    fn eq(&self, other: &Self) -> (same: bool) {
        match (self, other) {
            (ResourceVoteChoice::TowardsIdentity(a), ResourceVoteChoice::TowardsIdentity(b)) => {
                bytes_eq(a, b)
            },
            (ResourceVoteChoice::Abstain, ResourceVoteChoice::Abstain) => true,
            (ResourceVoteChoice::Lock, ResourceVoteChoice::Lock) => true,
            _ => false,
        }
    }
}

impl PartialEqSpecImpl for ResourceVoteChoice {
    open spec fn obeys_eq_spec() -> bool {
        true
    }

    open spec fn eq_spec(&self, other: &Self) -> bool {
        match (self, other) {
            (ResourceVoteChoice::TowardsIdentity(a), ResourceVoteChoice::TowardsIdentity(b)) => {
                a == b
            },
            (ResourceVoteChoice::Abstain, ResourceVoteChoice::Abstain) => true,
            (ResourceVoteChoice::Lock, ResourceVoteChoice::Lock) => true,
            _ => false,
        }
    }
}

/// Minimal object for storing the user's currently selected vote on a
/// single contested name.
#[derive(Debug, PartialEq, Eq)]
pub struct SelectedVote {
    pub contested_name: String,
    pub vote_choice: ResourceVoteChoice,
    pub end_time: Option<u64>,
}

pub struct SelectedVoteView {
    pub contested_name: Seq<char>,
    pub vote_choice: ResourceVoteChoice,
    pub end_time: Option<u64>,
}

impl View for SelectedVote {
    type V = SelectedVoteView;

    open spec fn view(&self) -> SelectedVoteView {
        SelectedVoteView {
            contested_name: self.contested_name@,
            vote_choice: self.vote_choice,
            end_time: self.end_time,
        }
    }
}

impl Clone for SelectedVote {
    fn clone(&self) -> (copy: SelectedVote)
        ensures
            copy@ == self@,
    {
        SelectedVote {
            contested_name: self.contested_name.clone(),
            vote_choice: self.vote_choice,
            end_time: self.end_time,
        }
    }
}

/// The views of a list of selected votes.
pub open spec fn selected_views(votes: Seq<SelectedVote>) -> Seq<SelectedVoteView> {
    Seq::new(votes.len(), |i: int| votes[i]@)
}

/// The position of the first selected vote on the name, if there is one.
pub open spec fn spec_selection_index(votes: Seq<SelectedVoteView>, name: Seq<char>) -> Option<int>
    decreases votes.len(),
{
    if votes.len() == 0 {
        None
    } else if votes.first().contested_name == name {
        Some(0)
    } else {
        match spec_selection_index(votes.drop_first(), name) {
            Some(i) => Some(i + 1),
            None => None,
        }
    }
}

/// The selected votes after the user clicked a choice for a name: a name
/// without a selection gets this one, at the end of the list; a name with
/// another choice takes this choice; a name with this choice loses its
/// selection.
pub open spec fn spec_toggle_selected_vote(
    votes: Seq<SelectedVoteView>,
    name: Seq<char>,
    choice: ResourceVoteChoice,
    end_time: Option<u64>,
) -> Seq<SelectedVoteView> {
    match spec_selection_index(votes, name) {
        None => votes.push(SelectedVoteView { contested_name: name, vote_choice: choice, end_time }),
        Some(i) => if votes[i].vote_choice == choice {
            votes.remove(i)
        } else {
            votes.update(i, SelectedVoteView { vote_choice: choice, ..votes[i] })
        },
    }
}

/// The position of the first selected vote on the name.
pub fn selection_index(selected_votes: &Vec<SelectedVote>, contested_name: &str) -> (index: Option<
    usize,
>)
    ensures
        match index {
            Some(i) => spec_selection_index(selected_views(selected_votes@), contested_name@)
                == Some(i as int) && i < selected_votes@.len(),
            None => spec_selection_index(selected_views(selected_votes@), contested_name@)
                is None,
        },
{
    let ghost votes = selected_views(selected_votes@);
    let mut i: usize = 0;
    assert(votes.skip(0) =~= votes);
    while i < selected_votes.len()
        invariant
            i <= selected_votes.len(),
            votes == selected_views(selected_votes@),
            spec_selection_index(votes, contested_name@) == match spec_selection_index(
                votes.skip(i as int),
                contested_name@,
            ) {
                Some(k) => Some(k + i),
                None => None,
            },
        decreases selected_votes.len() - i,
    {
        proof {
            assert(votes.skip(i as int).first() == votes[i as int]);
            assert(votes.skip(i as int).drop_first() =~= votes.skip(i + 1));
        }
        if text_eq(selected_votes[i].contested_name.as_str(), contested_name) {
            return Some(i);
        }
        i = i + 1;
    }
    None
}

/// Tells whether the user has selected this choice for the name.
pub fn is_vote_selected(
    selected_votes: &Vec<SelectedVote>,
    contested_name: &str,
    choice: ResourceVoteChoice,
) -> (selected: bool)
    ensures
        selected == exists|i: int|
            0 <= i < selected_votes@.len() && (#[trigger] selected_votes@[i]).contested_name@
                == contested_name@ && selected_votes@[i].vote_choice == choice,
{
    let mut i: usize = 0;
    while i < selected_votes.len()
        invariant
            i <= selected_votes.len(),
            forall|k: int|
                0 <= k < i ==> !((#[trigger] selected_votes@[k]).contested_name@
                    == contested_name@ && selected_votes@[k].vote_choice == choice),
        decreases selected_votes.len() - i,
    {
        if text_eq(selected_votes[i].contested_name.as_str(), contested_name)
            && selected_votes[i].vote_choice == choice {
            return true;
        }
        i = i + 1;
    }
    false
}

/// Takes a click on a choice for a contested name.
pub fn toggle_selected_vote(
    selected_votes: &mut Vec<SelectedVote>,
    contested_name: &str,
    choice: ResourceVoteChoice,
    end_time: Option<u64>,
)
    ensures
        selected_views(final(selected_votes)@) == spec_toggle_selected_vote(
            selected_views(old(selected_votes)@),
            contested_name@,
            choice,
            end_time,
        ),
{
    let ghost before = selected_views(selected_votes@);
    match selection_index(selected_votes, contested_name) {
        Some(existing_index) => {
            if selected_votes[existing_index].vote_choice == choice {
                let _ = selected_votes.remove(existing_index);
                assert(selected_views(selected_votes@) =~= before.remove(existing_index as int));
            } else {
                selected_votes[existing_index].vote_choice = choice;
                assert(selected_views(selected_votes@) =~= before.update(
                    existing_index as int,
                    SelectedVoteView { vote_choice: choice, ..before[existing_index as int] },
                ));
            }
        },
        None => {
            selected_votes.push(
                SelectedVote {
                    contested_name: String::from_str(contested_name),
                    vote_choice: choice,
                    end_time,
                },
            );
            assert(selected_views(selected_votes@) =~= before.push(
                SelectedVoteView {
                    contested_name: contested_name@,
                    vote_choice: choice,
                    end_time,
                },
            ));
        },
    }
}

/// One who contests a name.
#[derive(Debug, PartialEq, Eq)]
pub struct Contestant {
    pub id: Identifier,
    /// The name as the contestant writes it.
    pub name: String,
    pub votes: u32,
}

/// A name under contest.
#[derive(Debug, PartialEq, Eq)]
pub struct ContestedName {
    pub normalized_contested_name: String,
    pub locked_votes: Option<u32>,
    pub abstain_votes: Option<u32>,
    pub awarded_to: Option<Identifier>,
    /// The end of the contest, in milliseconds since the epoch.
    pub end_time: Option<u64>,
    pub contestants: Option<Vec<Contestant>>,
    /// The time of the last look at the contest, in seconds since the
    /// epoch.
    pub last_updated: Option<u64>,
}

/// The most votes that a contestant of the list has; zero for an empty
/// list.
pub open spec fn spec_max_votes(contestants: Seq<Contestant>) -> u32
    decreases contestants.len(),
{
    if contestants.len() == 0 {
        0
    } else {
        let rest = spec_max_votes(contestants.drop_last());
        if contestants.last().votes > rest {
            contestants.last().votes
        } else {
            rest
        }
    }
}

/// The most votes are the votes of a contestant, and no contestant has
/// more.
pub proof fn lemma_max_votes(contestants: Seq<Contestant>)
    ensures
        forall|i: int|
            0 <= i < contestants.len() ==> (#[trigger] contestants[i]).votes <= spec_max_votes(
                contestants,
            ),
        contestants.len() > 0 ==> exists|i: int|
            0 <= i < contestants.len() && (#[trigger] contestants[i]).votes == spec_max_votes(
                contestants,
            ),
    decreases contestants.len(),
{
    if contestants.len() > 0 {
        let rest = contestants.drop_last();
        lemma_max_votes(rest);
        assert forall|i: int| 0 <= i < contestants.len() implies (
        #[trigger] contestants[i]).votes <= spec_max_votes(contestants) by {
            if i < rest.len() {
                assert(rest[i] == contestants[i]);
            }
        }
        if contestants.last().votes > spec_max_votes(rest) || rest.len() == 0 {
            assert(contestants[contestants.len() - 1].votes == spec_max_votes(contestants));
        } else {
            let w = choose|w: int|
                0 <= w < rest.len() && (#[trigger] rest[w]).votes == spec_max_votes(rest);
            assert(contestants[w] == rest[w]);
        }
    }
}

impl ContestedName {
    /// The most votes that a contestant of the name has; zero where the
    /// contestants are not known.
    pub fn max_contestant_votes(&self) -> (most: u32)
        ensures
            most == match self.contestants {
                Some(contestants) => spec_max_votes(contestants@),
                None => 0,
            },
    {
        match &self.contestants {
            None => 0,
            Some(contestants) => {
                let mut most: u32 = 0;
                let mut i: usize = 0;
                while i < contestants.len()
                    invariant
                        i <= contestants.len(),
                        most == spec_max_votes(contestants@.take(i as int)),
                    decreases contestants.len() - i,
                {
                    proof {
                        assert(contestants@.take(i + 1).drop_last() =~= contestants@.take(
                            i as int,
                        ));
                        assert(contestants@.take(i + 1).last() == contestants@[i as int]);
                    }
                    if contestants[i].votes > most {
                        most = contestants[i].votes;
                    }
                    i = i + 1;
                }
                assert(contestants@.take(i as int) =~= contestants@);
                most
            },
        }
    }

    /// Tells whether the votes to lock the name are shown in bold: there
    /// are more of them than any contestant has.
    pub fn is_locked_votes_bold(&self) -> (bold: bool)
        ensures
            bold == (match self.locked_votes {
                Some(votes) => votes,
                None => 0,
            } > match self.contestants {
                Some(contestants) => spec_max_votes(contestants@),
                None => 0,
            }),
    {
        let locked_votes = match self.locked_votes {
            Some(votes) => votes,
            None => 0,
        };
        locked_votes > self.max_contestant_votes()
    }
}

/// The names of a list of contestants.
pub open spec fn contestant_names(contestants: Seq<Contestant>) -> Seq<Seq<char>> {
    Seq::new(contestants.len(), |i: int| contestants[i].name@)
}

/// The name under which a contest is shown: the name as the contestants
/// write it where they all write it alike; their names with ` or ` between
/// them where they do not; the normalized name where no contestant is
/// known.
pub open spec fn spec_shown_name(normalized: Seq<char>, contestants: Option<Seq<Contestant>>) -> Seq<
    char,
> {
    match contestants {
        None => normalized,
        Some(list) => if list.len() == 0 {
            normalized
        } else if forall|i: int| 0 <= i < list.len() ==> (#[trigger] list[i]).name@ == list[0].name@ {
            list[0].name@
        } else {
            spec_join(contestant_names(list), " or "@)
        },
    }
}

impl ContestedName {
    /// The name under which the contest is shown.
    pub fn shown_name(&self) -> (name: String)
        ensures
            name@ == spec_shown_name(
                self.normalized_contested_name@,
                match self.contestants {
                    Some(contestants) => Some(contestants@),
                    None => None,
                },
            ),
    {
        match &self.contestants {
            None => self.normalized_contested_name.clone(),
            Some(contestants) => {
                if contestants.len() == 0 {
                    return self.normalized_contested_name.clone();
                }
                let mut names: Vec<String> = Vec::new();
                let mut alike = true;
                let mut i: usize = 0;
                while i < contestants.len()
                    invariant
                        i <= contestants.len(),
                        contestants@.len() > 0,
                        names@.len() == i,
                        forall|k: int| 0 <= k < i ==> (#[trigger] names@[k])@ == contestants@[k].name@,
                        alike == forall|k: int|
                            0 <= k < i ==> (#[trigger] contestants@[k]).name@
                                == contestants@[0].name@,
                    decreases contestants.len() - i,
                {
                    if !(contestants[i].name == contestants[0].name) {
                        alike = false;
                    }
                    names.push(contestants[i].name.clone());
                    i = i + 1;
                }
                if alike {
                    contestants[0].name.clone()
                } else {
                    assert(text_views(names@) =~= contestant_names(contestants@));
                    join_texts(&names, " or ")
                }
            },
        }
    }
}

/// A number of milliseconds since the epoch as the calendar takes it: a
/// number beyond the largest signed number wraps around.
pub open spec fn spec_signed(time: u64) -> i64 {
    if time <= i64::MAX as u64 {
        time as i64
    } else {
        (time - 0x1_0000_0000_0000_0000) as i64
    }
}

/// A number of milliseconds since the epoch as the calendar takes it.
pub fn signed(time: u64) -> (signed: i64)
    ensures
        signed == spec_signed(time),
{
    if time <= i64::MAX as u64 {
        time as i64
    } else {
        let below: u64 = u64::MAX - time;
        -(below as i64) - 1
    }
}

/// How the end of a contest is written, given how far away it is in
/// words: `Fetching` where the end is not known yet; `Invalid timestamp`
/// for an instant that the calendar does not reach; else the date and
/// time of day, and the distance in brackets.
pub open spec fn spec_ending_time_text(end_time: Option<u64>, relative_time: Seq<char>) -> Seq<char> {
    match end_time {
        None => "Fetching"@,
        Some(time) => match spec_utc_date_time_text(spec_signed(time)) {
            None => "Invalid timestamp"@,
            Some(date) => date + " ("@ + relative_time + ")"@,
        },
    }
}

/// Writes the end of a contest. `relative_time` says how far away the end
/// is.
pub fn ending_time_text(end_time: Option<u64>, relative_time: &str) -> (text: String)
    ensures
        text@ == spec_ending_time_text(end_time, relative_time@),
{
    match end_time {
        None => String::from_str("Fetching"),
        Some(time) => ending_time_text_of(utc_date_time_text(signed(time)), relative_time),
    }
}

/// Writes the end of a contest that is known, given the date and time of
/// day of the end where the calendar reaches it.
pub fn ending_time_text_of(date: Option<String>, relative_time: &str) -> (text: String)
    ensures
        text@ == match text_option_view(date) {
            None => "Invalid timestamp"@,
            Some(date) => date + " ("@ + relative_time@ + ")"@,
        },
{
    match date {
        None => String::from_str("Invalid timestamp"),
        Some(date) => date.concat(" (").concat(relative_time).concat(")"),
    }
}

/// How the time of the last look at a contest is written, given how far
/// back it lies in words and whether those words count seconds:
/// `Fetching` where there was no look yet; `Invalid timestamp` for an
/// instant that the calendar does not reach; `now` for a look that is
/// seconds old; else the distance.
pub open spec fn spec_last_updated_text(
    last_updated: Option<u64>,
    relative_time: Seq<char>,
    counts_seconds: bool,
) -> Seq<char> {
    match last_updated {
        None => "Fetching"@,
        Some(time) => if !spec_utc_seconds_are_valid(spec_signed(time)) {
            "Invalid timestamp"@
        } else if counts_seconds {
            "now"@
        } else {
            relative_time
        },
    }
}

/// Writes the time of the last look at a contest.
pub fn last_updated_text(last_updated: Option<u64>, relative_time: &str, counts_seconds: bool) -> (text:
    String)
    ensures
        text@ == spec_last_updated_text(last_updated, relative_time@, counts_seconds),
{
    match last_updated {
        None => String::from_str("Fetching"),
        Some(time) => last_updated_text_of(
            utc_seconds_are_valid(signed(time)),
            relative_time,
            counts_seconds,
        ),
    }
}

/// Writes the time of a look at a contest, given whether the calendar
/// reaches it.
pub fn last_updated_text_of(valid: bool, relative_time: &str, counts_seconds: bool) -> (text: String)
    ensures
        text@ == if !valid {
            "Invalid timestamp"@
        } else if counts_seconds {
            "now"@
        } else {
            relative_time@
        },
{
    if !valid {
        String::from_str("Invalid timestamp")
    } else if counts_seconds {
        String::from_str("now")
    } else {
        String::from_str(relative_time)
    }
}


/// A byte of a filter as it is held against names: the letters that look
/// like a digit stand for that digit.
pub open spec fn spec_look_alike(byte: u8) -> u8 {
    if byte == 0x6f || byte == 0x4f {
        0x30
    } else if byte == 0x6c {
        0x31
    } else {
        byte
    }
}

/// A filter in lower case as it is held against names.
pub open spec fn spec_normalized_filter(lowered: Seq<u8>) -> Seq<u8> {
    Seq::new(lowered.len(), |i: int| spec_look_alike(lowered[i]))
}

/// Turns a filter in lower case into what is held against names: `o`
/// stands for `0` and `l` for `1`, as in a normalized name.
pub fn normalized_filter(lowered: &[u8]) -> (filter: Vec<u8>)
    ensures
        filter@ == spec_normalized_filter(lowered@),
{
    let mut filter: Vec<u8> = Vec::new();
    let mut i: usize = 0;
    while i < lowered.len()
        invariant
            i <= lowered.len(),
            filter@.len() == i,
            forall|k: int| 0 <= k < i ==> filter@[k] == spec_look_alike(lowered@[k]),
        decreases lowered.len() - i,
    {
        let byte = lowered[i];
        let mapped: u8 = if byte == 0x6f || byte == 0x4f {
            0x30
        } else if byte == 0x6c {
            0x31
        } else {
            byte
        };
        filter.push(mapped);
        i = i + 1;
    }
    assert(filter@ =~= spec_normalized_filter(lowered@));
    filter
}

/// A name passes a filter: the filter is empty, or the name in lower case
/// holds the filter, in lower case and with its look-alike letters turned
/// into digits.
pub open spec fn spec_name_matches_filter(name: Seq<char>, filter_term: Seq<char>) -> bool {
    filter_term.len() == 0 || bytes_contain(
        vstd::utf8::encode_utf8(spec_lowercase(name)),
        spec_normalized_filter(vstd::utf8::encode_utf8(spec_lowercase(filter_term))),
    )
}

/// Tells whether a name in lower case holds a filter in lower case, once
/// the look-alike letters of the filter are turned into digits.
pub fn lowered_name_matches(lowered_name: &str, lowered_filter: &str) -> (matches: bool)
    ensures
        matches == bytes_contain(
            lowered_name.spec_bytes(),
            spec_normalized_filter(lowered_filter.spec_bytes()),
        ),
{
    let filter = normalized_filter(lowered_filter.as_bytes());
    contains_bytes(lowered_name.as_bytes(), filter.as_slice())
}

/// Tells whether a contested name passes the filter that the user typed.
pub fn name_matches_filter(normalized_contested_name: &str, filter_term: &str) -> (matches: bool)
    ensures
        matches == spec_name_matches_filter(normalized_contested_name@, filter_term@),
{
    if filter_term.is_empty() {
        return true;
    }
    let lowered_filter = to_lowercase(filter_term);
    let lowered_name = to_lowercase(normalized_contested_name);
    lowered_name_matches(lowered_name.as_str(), lowered_filter.as_str())
}

} // verus!
