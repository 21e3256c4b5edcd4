//! What the screen of contested names does with the messages and results
//! of the backend, and how it turns the selected votes into tasks.

use crate::chain::{bytes_eq, Identifier};
use crate::contested_names::{ResourceVoteChoice, SelectedVote};
use crate::dpns::{
    BulkVotePlan, RefreshingStatus, ScheduledVoteCastingStatus, VoteHandlingStatus,
    VoteHandlingStatusView, VoteOption,
};
use crate::outside::{
    decimal_text, join_lines, quoted_text, spec_decimal_text, spec_join, spec_quoted_text,
    text_views,
};
use crate::text::{bytes_contain, text_contains, text_eq, MessageType};
use vstd::prelude::*;
use vstd::string::StringSliceAdditionalSpecFns;

verus! {

/// A vote that is to be cast at a later time.
#[derive(Debug, PartialEq, Eq)]
pub struct ScheduledDPNSVote {
    pub contested_name: String,
    pub voter_id: Identifier,
    pub choice: ResourceVoteChoice,
    /// The time at which the vote is cast, in milliseconds since the epoch.
    pub unix_timestamp: u64,
    pub executed_successfully: bool,
}

pub struct ScheduledDPNSVoteView {
    pub contested_name: Seq<char>,
    pub voter_id: Identifier,
    pub choice: ResourceVoteChoice,
    pub unix_timestamp: u64,
    pub executed_successfully: bool,
}

impl View for ScheduledDPNSVote {
    type V = ScheduledDPNSVoteView;

    open spec fn view(&self) -> ScheduledDPNSVoteView {
        ScheduledDPNSVoteView {
            contested_name: self.contested_name@,
            voter_id: self.voter_id,
            choice: self.choice,
            unix_timestamp: self.unix_timestamp,
            executed_successfully: self.executed_successfully,
        }
    }
}

/// A scheduled vote with how far its casting has come.
#[derive(Debug, PartialEq, Eq)]
pub struct TrackedVote {
    pub vote: ScheduledDPNSVote,
    pub status: ScheduledVoteCastingStatus,
}

/// The status that the screen knows of the vote of `voter` on `name`: that
/// of the first such vote in the list.
pub open spec fn spec_known_status(
    known: Seq<TrackedVote>,
    name: Seq<char>,
    voter: Identifier,
) -> Option<ScheduledVoteCastingStatus>
    decreases known.len(),
{
    if known.len() == 0 {
        None
    } else if known.first().vote.contested_name@ == name && known.first().vote.voter_id == voter {
        Some(known.first().status)
    } else {
        spec_known_status(known.drop_first(), name, voter)
    }
}

/// The status of a vote that was read anew.
pub open spec fn spec_merged_status(
    executed_successfully: bool,
    known: Option<ScheduledVoteCastingStatus>,
) -> ScheduledVoteCastingStatus {
    if executed_successfully {
        ScheduledVoteCastingStatus::Completed
    } else if known == Some(ScheduledVoteCastingStatus::InProgress) {
        ScheduledVoteCastingStatus::InProgress
    } else if known == Some(ScheduledVoteCastingStatus::Failed) {
        ScheduledVoteCastingStatus::Failed
    } else {
        ScheduledVoteCastingStatus::NotStarted
    }
}

/// The status that the screen knows of the vote of `voter` on `name`.
pub fn known_status(known: &Vec<TrackedVote>, name: &str, voter: &Identifier) -> (status: Option<
    ScheduledVoteCastingStatus,
>)
    ensures
        status == spec_known_status(known@, name@, *voter),
{
    let mut i: usize = 0;
    assert(known@.skip(0) =~= known@);
    while i < known.len()
        invariant
            i <= known.len(),
            spec_known_status(known@, name@, *voter) == spec_known_status(
                known@.skip(i as int),
                name@,
                *voter,
            ),
        decreases known.len() - i,
    {
        proof {
            assert(known@.skip(i as int).first() == known@[i as int]);
            assert(known@.skip(i as int).drop_first() =~= known@.skip(i + 1));
        }
        if text_eq(known[i].vote.contested_name.as_str(), name) && bytes_eq(
            &known[i].vote.voter_id,
            voter,
        ) {
            return Some(known[i].status);
        }
        i = i + 1;
    }
    None
}

/// Takes the scheduled votes as they were read anew: each with the status
/// completed where it was cast, and else with what the screen knew of it,
/// as far as that was that its casting is under way or has failed.
pub fn refresh_scheduled_votes(fresh: Vec<ScheduledDPNSVote>, known: &Vec<TrackedVote>) -> (followed:
    Vec<TrackedVote>)
    ensures
        followed@.len() == fresh@.len(),
        forall|k: int|
            0 <= k < fresh@.len() ==> (#[trigger] followed@[k]).vote == fresh@[k] && followed@[k].status
                == spec_merged_status(
                fresh@[k].executed_successfully,
                spec_known_status(known@, fresh@[k].contested_name@, fresh@[k].voter_id),
            ),
{
    let ghost all = fresh@;
    let mut fresh = fresh;
    let mut followed: Vec<TrackedVote> = Vec::new();
    while fresh.len() > 0
        invariant
            followed@.len() + fresh@.len() == all.len(),
            forall|k: int| 0 <= k < fresh@.len() ==> fresh@[k] == all[followed@.len() + k],
            forall|k: int|
                0 <= k < followed@.len() ==> (#[trigger] followed@[k]).vote == all[k]
                    && followed@[k].status == spec_merged_status(
                    all[k].executed_successfully,
                    spec_known_status(known@, all[k].contested_name@, all[k].voter_id),
                ),
        decreases fresh.len(),
    {
        let vote = fresh.remove(0);
        let status = ScheduledVoteCastingStatus::merged(
            vote.executed_successfully,
            known_status(known, vote.contested_name.as_str(), &vote.voter_id),
        );
        followed.push(TrackedVote { vote, status });
    }
    followed
}

/// The votes that begin when the user applies the selected votes: the
/// identities that cast them now, and the votes that are scheduled.
#[derive(Debug, PartialEq, Eq)]
pub struct BulkVotes {
    pub immediate: Vec<Identifier>,
    pub scheduled: Vec<ScheduledDPNSVote>,
}

/// The time at which an option scheduled at `now_millis` casts its votes.
pub open spec fn spec_scheduled_time(option: VoteOption, now_millis: u64) -> u64 {
    let delay = option.spec_delay_millis()->0;
    if now_millis + delay > u64::MAX {
        u64::MAX
    } else {
        (now_millis + delay) as u64
    }
}

/// The votes of one identity at a later time: one for each selected vote,
/// in their order.
pub open spec fn spec_votes_of(
    voter: Identifier,
    selected: Seq<SelectedVote>,
    time: u64,
) -> Seq<ScheduledDPNSVoteView> {
    Seq::new(
        selected.len(),
        |k: int|
            ScheduledDPNSVoteView {
                contested_name: selected[k].contested_name@,
                voter_id: voter,
                choice: selected[k].vote_choice,
                unix_timestamp: time,
                executed_successfully: false,
            },
    )
}

/// The identities, of the first `n`, whose option is to cast now.
pub open spec fn spec_immediate(identities: Seq<Identifier>, options: Seq<VoteOption>, n: int) -> Seq<
    Identifier,
>
    decreases n,
{
    if n <= 0 {
        Seq::empty()
    } else if options[n - 1] == VoteOption::CastNow {
        spec_immediate(identities, options, n - 1).push(identities[n - 1])
    } else {
        spec_immediate(identities, options, n - 1)
    }
}

/// The votes scheduled by the first `n` identities.
pub open spec fn spec_scheduled(
    identities: Seq<Identifier>,
    options: Seq<VoteOption>,
    selected: Seq<SelectedVote>,
    now_millis: u64,
    n: int,
) -> Seq<ScheduledDPNSVoteView>
    decreases n,
{
    if n <= 0 {
        Seq::empty()
    } else if options[n - 1] is Scheduled {
        spec_scheduled(identities, options, selected, now_millis, n - 1) + spec_votes_of(
            identities[n - 1],
            selected,
            spec_scheduled_time(options[n - 1], now_millis),
        )
    } else {
        spec_scheduled(identities, options, selected, now_millis, n - 1)
    }
}

/// The views of a list of scheduled votes.
pub open spec fn scheduled_views(votes: Seq<ScheduledDPNSVote>) -> Seq<ScheduledDPNSVoteView> {
    Seq::new(votes.len(), |k: int| votes[k]@)
}

/// The smaller of two numbers.
pub open spec fn spec_min(a: int, b: int) -> int {
    if a <= b {
        a
    } else {
        b
    }
}

/// Turns the selected votes into what begins now: each identity goes with
/// the option at its place; an identity without an option does nothing.
/// An identity that casts now is listed; an identity with a later time
/// schedules each selected vote for that time.
pub fn bulk_apply_votes(
    voting_identities: &Vec<Identifier>,
    bulk_identity_options: &Vec<VoteOption>,
    selected_votes: &Vec<SelectedVote>,
    now_millis: u64,
) -> (votes: BulkVotes)
    ensures
        votes.immediate@ == spec_immediate(
            voting_identities@,
            bulk_identity_options@,
            spec_min(voting_identities@.len() as int, bulk_identity_options@.len() as int),
        ),
        scheduled_views(votes.scheduled@) == spec_scheduled(
            voting_identities@,
            bulk_identity_options@,
            selected_votes@,
            now_millis,
            spec_min(voting_identities@.len() as int, bulk_identity_options@.len() as int),
        ),
{
    let mut immediate: Vec<Identifier> = Vec::new();
    let mut scheduled: Vec<ScheduledDPNSVote> = Vec::new();
    let count = if voting_identities.len() <= bulk_identity_options.len() {
        voting_identities.len()
    } else {
        bulk_identity_options.len()
    };
    let mut n: usize = 0;
    while n < count
        invariant
            n <= count,
            count <= voting_identities@.len(),
            count <= bulk_identity_options@.len(),
            immediate@ == spec_immediate(voting_identities@, bulk_identity_options@, n as int),
            scheduled_views(scheduled@) == spec_scheduled(
                voting_identities@,
                bulk_identity_options@,
                selected_votes@,
                now_millis,
                n as int,
            ),
        decreases count - n,
    {
        let voter = voting_identities[n];
        match bulk_identity_options[n] {
            VoteOption::NoVote => {},
            VoteOption::CastNow => {
                immediate.push(voter);
            },
            VoteOption::Scheduled { days, hours, minutes } => {
                let option = VoteOption::Scheduled { days, hours, minutes };
                let time = match option.scheduled_time(now_millis) {
                    Some(time) => time,
                    None => now_millis,
                };
                let ghost before = scheduled_views(scheduled@);
                let ghost added = spec_votes_of(voter, selected_votes@, time);
                let mut k: usize = 0;
                while k < selected_votes.len()
                    invariant
                        k <= selected_votes.len(),
                        added == spec_votes_of(voter, selected_votes@, time),
                        scheduled_views(scheduled@) == before + added.take(k as int),
                    decreases selected_votes.len() - k,
                {
                    let ghost so_far = scheduled_views(scheduled@);
                    let vote = ScheduledDPNSVote {
                        contested_name: selected_votes[k].contested_name.clone(),
                        voter_id: voter,
                        choice: selected_votes[k].vote_choice,
                        unix_timestamp: time,
                        executed_successfully: false,
                    };
                    assert(vote@ == added[k as int]);
                    scheduled.push(vote);
                    assert(scheduled_views(scheduled@) =~= so_far.push(added[k as int]));
                    assert(added.take(k + 1) =~= added.take(k as int).push(added[k as int]));
                    assert(scheduled_views(scheduled@) =~= before + added.take(k + 1));
                    k = k + 1;
                }
                assert(added.take(k as int) =~= added);
            },
        }
        n = n + 1;
    }
    BulkVotes { immediate, scheduled }
}

impl BulkVotes {
    /// What the handling of the votes begins with.
    pub fn plan(&self) -> (plan: BulkVotePlan)
        ensures
            plan == if self.immediate@.len() == 0 && self.scheduled@.len() == 0 {
                BulkVotePlan::NothingSelected
            } else if self.immediate@.len() != 0 && self.scheduled@.len() != 0 {
                BulkVotePlan::CastAndSchedule
            } else if self.immediate@.len() != 0 {
                BulkVotePlan::CastOnly
            } else {
                BulkVotePlan::ScheduleOnly
            },
    {
        VoteHandlingStatus::plan(self.immediate.len(), self.scheduled.len())
    }
}

/// What a message of the backend tells the screen.
#[derive(Clone, Copy, Debug, PartialEq, Eq, Structural)]
pub struct MessageEffects {
    /// The casting of a scheduled vote has failed.
    pub scheduled_vote_failed: bool,
    /// A scheduled vote has been cast.
    pub scheduled_vote_cast: bool,
    /// The loading of the list has ended, well or not.
    pub refresh_ended: bool,
    /// The selected votes have been scheduled.
    pub votes_scheduled: bool,
}

/// What a message of the backend tells the screen, by the words that
/// occur in it.
pub open spec fn spec_message_effects(message: Seq<u8>) -> MessageEffects {
    MessageEffects {
        scheduled_vote_failed: bytes_contain(
            message,
            "Error casting scheduled vote".spec_bytes(),
        ),
        scheduled_vote_cast: bytes_contain(
            message,
            "Successfully cast scheduled vote".spec_bytes(),
        ),
        refresh_ended: bytes_contain(message, "Successfully refreshed DPNS contests".spec_bytes())
            || bytes_contain(
            message,
            "Successfully refreshed loaded identities dpns names".spec_bytes(),
        ) || bytes_contain(message, "Contested resource query failed".spec_bytes())
            || bytes_contain(message, "Error refreshing owned DPNS names".spec_bytes()),
        votes_scheduled: bytes_contain(message, "Votes scheduled".spec_bytes()),
    }
}

/// Reads what a message of the backend tells the screen.
pub fn message_effects(message: &str) -> (effects: MessageEffects)
    ensures
        effects == spec_message_effects(message.spec_bytes()),
{
    MessageEffects {
        scheduled_vote_failed: text_contains(message, "Error casting scheduled vote"),
        scheduled_vote_cast: text_contains(message, "Successfully cast scheduled vote"),
        refresh_ended: text_contains(message, "Successfully refreshed DPNS contests")
            || text_contains(message, "Successfully refreshed loaded identities dpns names")
            || text_contains(message, "Contested resource query failed") || text_contains(
            message,
            "Error refreshing owned DPNS names",
        ),
        votes_scheduled: text_contains(message, "Votes scheduled"),
    }
}

/// What the screen of contested names keeps of the work of the backend.
#[derive(Debug, PartialEq, Eq)]
pub struct DPNSStatus {
    pub scheduled_votes: Vec<TrackedVote>,
    pub scheduled_vote_cast_in_progress: bool,
    pub refreshing_status: RefreshingStatus,
    pub bulk_vote_handling_status: VoteHandlingStatus,
    /// What the screen shows of the outcome of the selected votes.
    pub bulk_schedule_message: Option<(MessageType, String)>,
}

impl DPNSStatus {
    /// Takes a message of the backend: a failed casting fails the votes
    /// that were under way; a casting that ended, well or not, is no
    /// longer under way; a loading that ended is no longer under way;
    /// votes that were being scheduled are scheduled.
    pub fn display_message(&mut self, message: &str)
        ensures
            ({
                let effects = spec_message_effects(message.spec_bytes());
                &&& final(self).scheduled_vote_cast_in_progress == (old(
                    self,
                ).scheduled_vote_cast_in_progress && !effects.scheduled_vote_failed
                    && !effects.scheduled_vote_cast)
                &&& final(self).refreshing_status == if effects.refresh_ended {
                    RefreshingStatus::NotRefreshing
                } else {
                    old(self).refreshing_status
                }
                &&& final(self).bulk_vote_handling_status@ == if effects.votes_scheduled && old(
                    self,
                ).bulk_vote_handling_status@ is SchedulingVotes {
                    VoteHandlingStatusView::Completed
                } else {
                    old(self).bulk_vote_handling_status@
                }
                &&& final(self).bulk_schedule_message == old(self).bulk_schedule_message
                &&& final(self).scheduled_votes@.len() == old(self).scheduled_votes@.len()
                &&& forall|k: int|
                    0 <= k < old(self).scheduled_votes@.len() ==> (
                    #[trigger] final(self).scheduled_votes@[k]).vote == old(
                        self,
                    ).scheduled_votes@[k].vote && final(self).scheduled_votes@[k].status == if effects.scheduled_vote_failed
                        && old(self).scheduled_votes@[k].status
                        == ScheduledVoteCastingStatus::InProgress {
                        ScheduledVoteCastingStatus::Failed
                    } else {
                        old(self).scheduled_votes@[k].status
                    }
            }),
    {
        let effects = message_effects(message);
        if effects.scheduled_vote_failed {
            self.scheduled_vote_cast_in_progress = false;
            let mut k: usize = 0;
            while k < self.scheduled_votes.len()
                invariant
                    k <= self.scheduled_votes@.len(),
                    self.scheduled_votes@.len() == old(self).scheduled_votes@.len(),
                    self.refreshing_status == old(self).refreshing_status,
                    self.bulk_vote_handling_status == old(self).bulk_vote_handling_status,
                    self.bulk_schedule_message == old(self).bulk_schedule_message,
                    !self.scheduled_vote_cast_in_progress,
                    forall|j: int|
                        0 <= j < self.scheduled_votes@.len() ==> (
                        #[trigger] self.scheduled_votes@[j]).vote == old(
                            self,
                        ).scheduled_votes@[j].vote,
                    forall|j: int|
                        0 <= j < k ==> (#[trigger] self.scheduled_votes@[j]).status == if old(
                            self,
                        ).scheduled_votes@[j].status == ScheduledVoteCastingStatus::InProgress {
                            ScheduledVoteCastingStatus::Failed
                        } else {
                            old(self).scheduled_votes@[j].status
                        },
                    forall|j: int|
                        k <= j < self.scheduled_votes@.len() ==> (
                        #[trigger] self.scheduled_votes@[j]).status == old(
                            self,
                        ).scheduled_votes@[j].status,
                decreases self.scheduled_votes.len() - k,
            {
                let status = self.scheduled_votes[k].status;
                self.scheduled_votes[k].status = status.after_casting_error();
                k = k + 1;
            }
        }
        if effects.scheduled_vote_cast {
            self.scheduled_vote_cast_in_progress = false;
        }
        if effects.refresh_ended {
            self.refreshing_status = RefreshingStatus::NotRefreshing;
        }
        if effects.votes_scheduled {
            match self.bulk_vote_handling_status {
                VoteHandlingStatus::SchedulingVotes => {
                    self.bulk_vote_handling_status = VoteHandlingStatus::Completed;
                },
                _ => {},
            }
        }
    }
}

/// Writes what the screen shows after votes were cast of which some
/// failed, given the number of votes cast and the number of all votes as
/// decimal texts, and the words of the failures as a quoted text.
pub fn partial_success_message(successes: String, total: String, errors: String) -> (message: (
    MessageType,
    String,
))
    ensures
        message.0 == MessageType::Error,
        message.1@ == "Successes: "@ + successes@ + "/"@ + total@ + "\n\nErrors:\n\n"@
            + errors@,
{
    (
        MessageType::Error,
        String::from_str("Successes: ").concat(successes.as_str()).concat("/").concat(
            total.as_str(),
        ).concat("\n\nErrors:\n\n").concat(errors.as_str()),
    )
}

/// What the screen shows after votes were cast: that all were cast, or
/// the failures, with the number of votes cast where some were.
pub open spec fn spec_vote_results_message(successes: usize, errors: Seq<Seq<char>>) -> (
    MessageType,
    Seq<char>,
) {
    if errors.len() == 0 {
        (MessageType::Success, "Votes all cast successfully."@)
    } else if successes == 0 {
        (MessageType::Error, "Errors:\n\n"@ + spec_join(errors, "\n\n"@))
    } else {
        (
            MessageType::Error,
            "Successes: "@ + spec_decimal_text(successes as nat) + "/"@ + spec_decimal_text(
                (successes + errors.len()) as nat,
            ) + "\n\nErrors:\n\n"@ + spec_quoted_text(spec_join(errors, "\n\n"@)),
        )
    }
}

/// Writes what the screen shows after votes were cast, given how many were
/// cast and the words of each failure.
pub fn vote_results_message(successes: usize, errors: &Vec<String>) -> (message: (
    MessageType,
    String,
))
    requires
        successes + errors@.len() <= usize::MAX,
    ensures
        (message.0, message.1@) == spec_vote_results_message(successes, text_views(errors@)),
{
    if errors.len() == 0 {
        (MessageType::Success, String::from_str("Votes all cast successfully."))
    } else {
        let errors_string = join_lines(errors, "\n\n");
        if successes == 0 {
            (MessageType::Error, String::from_str("Errors:\n\n").concat(errors_string.as_str()))
        } else {
            partial_success_message(
                decimal_text(successes as u64),
                decimal_text((successes + errors.len()) as u64),
                quoted_text(errors_string.as_str()),
            )
        }
    }
}


/// The outcome of one vote: the name, the choice, and whether the vote was
/// cast or why it was not.
pub type VoteResult = (String, ResourceVoteChoice, Result<(), String>);

/// What the backend hands to the screen when a task has ended well.
#[derive(Debug, PartialEq, Eq)]
pub enum BackendTaskSuccessResult {
    /// The outcomes of the votes that were cast now.
    DPNSVoteResults(Vec<VoteResult>),
    /// Words of the backend.
    Message(String),
    /// A scheduled vote that has been cast.
    CastScheduledVote(ScheduledDPNSVote),
    /// A result that this screen does not wait for.
    Other,
}

/// The words of the failures among the outcomes, in their order.
pub open spec fn spec_error_words(results: Seq<VoteResult>) -> Seq<Seq<char>>
    decreases results.len(),
{
    if results.len() == 0 {
        Seq::empty()
    } else {
        match results.last().2 {
            Err(words) => spec_error_words(results.drop_last()).push(words@),
            Ok(()) => spec_error_words(results.drop_last()),
        }
    }
}

/// The number of votes cast among the outcomes.
pub open spec fn spec_success_count(results: Seq<VoteResult>) -> nat
    decreases results.len(),
{
    if results.len() == 0 {
        0
    } else {
        spec_success_count(results.drop_last()) + match results.last().2 {
            Ok(()) => 1nat,
            Err(_) => 0nat,
        }
    }
}

/// The place of the first vote of `voter` on `name` in the list, if there
/// is one.
pub open spec fn spec_known_index(known: Seq<TrackedVote>, name: Seq<char>, voter: Identifier) -> Option<
    int,
>
    decreases known.len(),
{
    if known.len() == 0 {
        None
    } else if known.first().vote.contested_name@ == name && known.first().vote.voter_id == voter {
        Some(0)
    } else {
        match spec_known_index(known.drop_first(), name, voter) {
            Some(i) => Some(i + 1),
            None => None,
        }
    }
}

/// The view of what the screen shows of the outcome of the selected votes.
pub open spec fn schedule_message_view(message: Option<(MessageType, String)>) -> Option<
    (MessageType, Seq<char>),
> {
    match message {
        Some(m) => Some((m.0, m.1@)),
        None => None,
    }
}

/// Sums up the outcomes of votes: how many were cast, and the words of
/// each failure in order.
pub fn tally_vote_results(results: &Vec<VoteResult>) -> (tally: (usize, Vec<String>))
    ensures
        tally.0 == spec_success_count(results@),
        text_views(tally.1@) == spec_error_words(results@),
        tally.0 + tally.1@.len() == results@.len(),
{
    let mut successes: usize = 0;
    let mut errors: Vec<String> = Vec::new();
    let mut i: usize = 0;
    while i < results.len()
        invariant
            i <= results.len(),
            successes + errors@.len() == i,
            successes == spec_success_count(results@.take(i as int)),
            text_views(errors@) == spec_error_words(results@.take(i as int)),
        decreases results.len() - i,
    {
        proof {
            assert(results@.take(i + 1).drop_last() =~= results@.take(i as int));
            assert(results@.take(i + 1).last() == results@[i as int]);
        }
        match &results[i].2 {
            Ok(()) => {
                successes = successes + 1;
            },
            Err(words) => {
                let ghost so_far = text_views(errors@);
                errors.push(words.clone());
                assert(text_views(errors@) =~= so_far.push(words@));
            },
        }
        i = i + 1;
    }
    assert(results@.take(i as int) =~= results@);
    (successes, errors)
}

/// The place of the first vote of `voter` on `name` in the list.
pub fn known_index(known: &Vec<TrackedVote>, name: &str, voter: &Identifier) -> (index: Option<
    usize,
>)
    ensures
        match index {
            Some(i) => spec_known_index(known@, name@, *voter) == Some(i as int) && i
                < known@.len(),
            None => spec_known_index(known@, name@, *voter) is None,
        },
{
    let mut i: usize = 0;
    assert(known@.skip(0) =~= known@);
    while i < known.len()
        invariant
            i <= known.len(),
            spec_known_index(known@, name@, *voter) == match spec_known_index(
                known@.skip(i as int),
                name@,
                *voter,
            ) {
                Some(k) => Some(k + i),
                None => None,
            },
        decreases known.len() - i,
    {
        proof {
            assert(known@.skip(i as int).first() == known@[i as int]);
            assert(known@.skip(i as int).drop_first() =~= known@.skip(i + 1));
        }
        if text_eq(known[i].vote.contested_name.as_str(), name) && bytes_eq(
            &known[i].vote.voter_id,
            voter,
        ) {
            return Some(i);
        }
        i = i + 1;
    }
    None
}

impl DPNSStatus {
    /// Takes the result of a task of the backend.
    ///
    /// The outcomes of votes end the handling of the selected votes, and
    /// the screen shows their sum. Words that tell of scheduled votes end
    /// the scheduling, and the screen shows that the votes are scheduled.
    /// A scheduled vote that has been cast is completed in the list. Any
    /// other result changes nothing.
    pub fn display_task_result(&mut self, backend_task_success_result: BackendTaskSuccessResult)
        ensures
            final(self).scheduled_vote_cast_in_progress == old(self).scheduled_vote_cast_in_progress,
            final(self).refreshing_status == old(self).refreshing_status,
            match backend_task_success_result {
                BackendTaskSuccessResult::DPNSVoteResults(results) => {
                    &&& final(self).scheduled_votes == old(self).scheduled_votes
                    &&& final(self).bulk_vote_handling_status@ == VoteHandlingStatusView::Completed
                    &&& schedule_message_view(final(self).bulk_schedule_message) == Some(
                        spec_vote_results_message(
                            spec_success_count(results@) as usize,
                            spec_error_words(results@),
                        ),
                    )
                },
                BackendTaskSuccessResult::Message(msg) => {
                    let scheduled = bytes_contain(
                        vstd::utf8::encode_utf8(msg@),
                        "Votes scheduled".spec_bytes(),
                    );
                    &&& final(self).scheduled_votes == old(self).scheduled_votes
                    &&& final(self).bulk_vote_handling_status@ == if scheduled && old(
                        self,
                    ).bulk_vote_handling_status@ is SchedulingVotes {
                        VoteHandlingStatusView::Completed
                    } else {
                        old(self).bulk_vote_handling_status@
                    }
                    &&& schedule_message_view(final(self).bulk_schedule_message) == if scheduled {
                        Some((MessageType::Success, "Votes scheduled"@))
                    } else {
                        schedule_message_view(old(self).bulk_schedule_message)
                    }
                },
                BackendTaskSuccessResult::CastScheduledVote(vote) => {
                    &&& final(self).bulk_vote_handling_status == old(self).bulk_vote_handling_status
                    &&& final(self).bulk_schedule_message == old(self).bulk_schedule_message
                    &&& final(self).scheduled_votes@.len() == old(self).scheduled_votes@.len()
                    &&& forall|k: int|
                        0 <= k < old(self).scheduled_votes@.len() ==> (
                        #[trigger] final(self).scheduled_votes@[k]).vote == old(
                            self,
                        ).scheduled_votes@[k].vote && final(self).scheduled_votes@[k].status
                            == if spec_known_index(
                            old(self).scheduled_votes@,
                            vote.contested_name@,
                            vote.voter_id,
                        ) == Some(k) {
                            ScheduledVoteCastingStatus::Completed
                        } else {
                            old(self).scheduled_votes@[k].status
                        }
                },
                BackendTaskSuccessResult::Other => *final(self) == *old(self),
            },
    {
        match backend_task_success_result {
            BackendTaskSuccessResult::DPNSVoteResults(results) => {
                let count = results.len();
                let (successes, errors) = tally_vote_results(&results);
                assert(successes + errors@.len() == count);
                self.bulk_schedule_message = Some(vote_results_message(successes, &errors));
                self.bulk_vote_handling_status = VoteHandlingStatus::Completed;
            },
            BackendTaskSuccessResult::Message(msg) => {
                if text_contains(msg.as_str(), "Votes scheduled") {
                    match self.bulk_vote_handling_status {
                        VoteHandlingStatus::SchedulingVotes => {
                            self.bulk_vote_handling_status = VoteHandlingStatus::Completed;
                        },
                        _ => {},
                    }
                    self.bulk_schedule_message = Some(
                        (MessageType::Success, String::from_str("Votes scheduled")),
                    );
                }
            },
            BackendTaskSuccessResult::CastScheduledVote(vote) => {
                match known_index(&self.scheduled_votes, vote.contested_name.as_str(), &vote.voter_id) {
                    Some(i) => {
                        self.scheduled_votes[i].status = ScheduledVoteCastingStatus::Completed;
                    },
                    None => {},
                }
            },
            BackendTaskSuccessResult::Other => {},
        }
    }
}

impl DPNSStatus {
    /// Takes the click that casts the scheduled vote in row `index` of the
    /// table at once. Where the table offers that for the row, the casting
    /// of scheduled votes is under way from now on, and so is that of the
    /// first vote in the list with the name and the voter of the row.
    /// Otherwise, and for a row that the table does not have, nothing
    /// changes.
    pub fn cast_now(&mut self, index: usize) -> (cast: bool)
        ensures
            cast == (index < old(self).scheduled_votes@.len() && old(
                self,
            ).scheduled_votes@[index as int].status.spec_can_be_cast(
                old(self).scheduled_vote_cast_in_progress,
            )),
            !cast ==> *final(self) == *old(self),
            cast ==> {
                &&& final(self).scheduled_vote_cast_in_progress
                &&& final(self).refreshing_status == old(self).refreshing_status
                &&& final(self).bulk_vote_handling_status == old(self).bulk_vote_handling_status
                &&& final(self).bulk_schedule_message == old(self).bulk_schedule_message
                &&& final(self).scheduled_votes@.len() == old(self).scheduled_votes@.len()
                &&& forall|k: int|
                    0 <= k < old(self).scheduled_votes@.len() ==> (
                    #[trigger] final(self).scheduled_votes@[k]).vote == old(
                        self,
                    ).scheduled_votes@[k].vote && final(self).scheduled_votes@[k].status
                        == if spec_known_index(
                        old(self).scheduled_votes@,
                        old(self).scheduled_votes@[index as int].vote.contested_name@,
                        old(self).scheduled_votes@[index as int].vote.voter_id,
                    ) == Some(k) {
                        ScheduledVoteCastingStatus::InProgress
                    } else {
                        old(self).scheduled_votes@[k].status
                    }
            },
    {
        if index >= self.scheduled_votes.len() {
            return false;
        }
        if !self.scheduled_votes[index].status.can_be_cast(self.scheduled_vote_cast_in_progress) {
            return false;
        }
        self.scheduled_vote_cast_in_progress = true;
        let found = known_index(
            &self.scheduled_votes,
            self.scheduled_votes[index].vote.contested_name.as_str(),
            &self.scheduled_votes[index].vote.voter_id,
        );
        match found {
            Some(i) => {
                self.scheduled_votes[i].status = ScheduledVoteCastingStatus::InProgress;
            },
            None => {},
        }
        true
    }
}

} // verus!
