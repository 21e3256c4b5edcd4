//! What the screen of contested names keeps between two frames: which part
//! of it is shown, how its table is sorted, and how far the casting of
//! votes has come.

use vstd::prelude::*;

verus! {

/// The number of seconds after which a message is taken off the screen.
pub const MESSAGE_LIFETIME_SECONDS: i64 = 10;

/// Which DPNS sub-screen is currently showing.
#[derive(Clone, Copy, Debug, PartialEq, Eq, Structural)]
pub enum DPNSSubscreen {
    Active,
    Past,
    Owned,
    ScheduledVotes,
}

impl DPNSSubscreen {
    /// The name of the sub-screen as it is shown.
    pub open spec fn spec_display_name(&self) -> Seq<char> {
        match self {
            DPNSSubscreen::Active => "Active contests"@,
            DPNSSubscreen::Past => "Past contests"@,
            DPNSSubscreen::Owned => "My usernames"@,
            DPNSSubscreen::ScheduledVotes => "Scheduled votes"@,
        }
    }

    /// The name of the sub-screen as it is shown.
    pub fn display_name(&self) -> (name: &'static str)
        ensures
            name@ == self.spec_display_name(),
    {
        match self {
            Self::Active => "Active contests",
            Self::Past => "Past contests",
            Self::Owned => "My usernames",
            Self::ScheduledVotes => "Scheduled votes",
        }
    }

    /// What is shown where the sub-screen has nothing to list.
    pub open spec fn spec_empty_text(&self) -> Seq<char> {
        match self {
            DPNSSubscreen::Active => "No active contests at the moment."@,
            DPNSSubscreen::Past => "No active or past contests at the moment."@,
            DPNSSubscreen::Owned => "No owned usernames."@,
            DPNSSubscreen::ScheduledVotes => "No scheduled votes."@,
        }
    }

    /// What is shown where the sub-screen has nothing to list.
    pub fn empty_text(&self) -> (text: &'static str)
        ensures
            text@ == self.spec_empty_text(),
    {
        match self {
            Self::Active => "No active contests at the moment.",
            Self::Past => "No active or past contests at the moment.",
            Self::Owned => "No owned usernames.",
            Self::ScheduledVotes => "No scheduled votes.",
        }
    }

    /// Tells whether the sub-screen offers to load its list anew where the
    /// list is empty: every sub-screen but that of the scheduled votes.
    pub fn offers_refresh(&self) -> (offers: bool)
        ensures
            offers == (*self != DPNSSubscreen::ScheduledVotes),
    {
        match self {
            Self::ScheduledVotes => false,
            _ => true,
        }
    }
}

/// What an identity does with the selected votes.
#[derive(Clone, Copy, Debug, PartialEq, Eq, Structural)]
pub enum VoteOption {
    NoVote,
    CastNow,
    Scheduled { days: u32, hours: u32, minutes: u32 },
}

/// The number of milliseconds in a minute, an hour and a day.
pub const MILLIS_PER_MINUTE: u64 = 60_000;

pub const MILLIS_PER_HOUR: u64 = 3_600_000;

pub const MILLIS_PER_DAY: u64 = 86_400_000;

impl VoteOption {
    /// The time from now after which a scheduled vote is cast, in
    /// milliseconds; nothing for a vote that is not scheduled.
    pub open spec fn spec_delay_millis(&self) -> Option<u64> {
        match self {
            VoteOption::Scheduled { days, hours, minutes } => Some(
                (*days * MILLIS_PER_DAY + *hours * MILLIS_PER_HOUR + *minutes * MILLIS_PER_MINUTE)
                    as u64,
            ),
            _ => None,
        }
    }

    /// The time from now after which a scheduled vote is cast, in
    /// milliseconds; nothing for a vote that is not scheduled.
    pub fn delay_millis(&self) -> (delay: Option<u64>)
        ensures
            delay == self.spec_delay_millis(),
    {
        match self {
            VoteOption::Scheduled { days, hours, minutes } => {
                let days: u64 = *days as u64;
                let hours: u64 = *hours as u64;
                let minutes: u64 = *minutes as u64;
                assert(days * MILLIS_PER_DAY + hours * MILLIS_PER_HOUR + minutes
                    * MILLIS_PER_MINUTE <= u64::MAX) by (nonlinear_arith)
                    requires
                        days <= u32::MAX,
                        hours <= u32::MAX,
                        minutes <= u32::MAX,
                ;
                assert(days * MILLIS_PER_DAY <= u64::MAX) by (nonlinear_arith)
                    requires
                        days <= u32::MAX,
                ;
                assert(hours * MILLIS_PER_HOUR <= u64::MAX) by (nonlinear_arith)
                    requires
                        hours <= u32::MAX,
                ;
                assert(minutes * MILLIS_PER_MINUTE <= u64::MAX) by (nonlinear_arith)
                    requires
                        minutes <= u32::MAX,
                ;
                Some(days * MILLIS_PER_DAY + hours * MILLIS_PER_HOUR + minutes * MILLIS_PER_MINUTE)
            },
            _ => None,
        }
    }

    /// The time at which a vote scheduled now is cast, in milliseconds
    /// since the epoch, as far as 64 bits hold it.
    pub fn scheduled_time(&self, now_millis: u64) -> (time: Option<u64>)
        ensures
            time == match self.spec_delay_millis() {
                Some(delay) => Some(
                    if now_millis + delay > u64::MAX {
                        u64::MAX
                    } else {
                        (now_millis + delay) as u64
                    },
                ),
                None => None,
            },
    {
        match self.delay_millis() {
            Some(delay) => Some(now_millis.saturating_add(delay)),
            None => None,
        }
    }
}

/// Tracks the casting status for each scheduled vote item.
#[derive(Clone, Copy, Debug, PartialEq, Eq, Structural)]
pub enum ScheduledVoteCastingStatus {
    NotStarted,
    InProgress,
    Failed,
    Completed,
}

impl ScheduledVoteCastingStatus {
    /// The status of a scheduled vote that was read anew: completed where
    /// it was cast; otherwise what the screen knew of it, as far as that
    /// was that the casting is under way or has failed.
    pub fn merged(executed_successfully: bool, known: Option<ScheduledVoteCastingStatus>) -> (status:
        ScheduledVoteCastingStatus)
        ensures
            status == if executed_successfully {
                ScheduledVoteCastingStatus::Completed
            } else if known == Some(ScheduledVoteCastingStatus::InProgress) {
                ScheduledVoteCastingStatus::InProgress
            } else if known == Some(ScheduledVoteCastingStatus::Failed) {
                ScheduledVoteCastingStatus::Failed
            } else {
                ScheduledVoteCastingStatus::NotStarted
            },
    {
        if executed_successfully {
            ScheduledVoteCastingStatus::Completed
        } else {
            match known {
                Some(ScheduledVoteCastingStatus::InProgress) => {
                    ScheduledVoteCastingStatus::InProgress
                },
                Some(ScheduledVoteCastingStatus::Failed) => ScheduledVoteCastingStatus::Failed,
                _ => ScheduledVoteCastingStatus::NotStarted,
            }
        }
    }

    /// The word under which the table of scheduled votes shows the status.
    pub open spec fn spec_label(self) -> Seq<char> {
        match self {
            ScheduledVoteCastingStatus::NotStarted => "Pending"@,
            ScheduledVoteCastingStatus::InProgress => "Casting..."@,
            ScheduledVoteCastingStatus::Failed => "Failed"@,
            ScheduledVoteCastingStatus::Completed => "Casted"@,
        }
    }

    /// The word under which the table of scheduled votes shows the status.
    pub fn label(self) -> (label: &'static str)
        ensures
            label@ == self.spec_label(),
    {
        match self {
            ScheduledVoteCastingStatus::NotStarted => "Pending",
            ScheduledVoteCastingStatus::InProgress => "Casting...",
            ScheduledVoteCastingStatus::Failed => "Failed",
            ScheduledVoteCastingStatus::Completed => "Casted",
        }
    }

    /// A scheduled vote can be cast at once where its casting has not
    /// started or has failed, and no scheduled vote is being cast.
    pub open spec fn spec_can_be_cast(self, cast_in_progress: bool) -> bool {
        (self == ScheduledVoteCastingStatus::NotStarted || self
            == ScheduledVoteCastingStatus::Failed) && !cast_in_progress
    }

    /// Whether the table offers to cast the vote at once.
    pub fn can_be_cast(self, cast_in_progress: bool) -> (offers: bool)
        ensures
            offers == self.spec_can_be_cast(cast_in_progress),
    {
        let waits = match self {
            ScheduledVoteCastingStatus::NotStarted => true,
            ScheduledVoteCastingStatus::Failed => true,
            _ => false,
        };
        waits && !cast_in_progress
    }

    /// The status after the casting of scheduled votes has failed: a vote
    /// under way has failed, any other keeps its status.
    pub fn after_casting_error(self) -> (status: ScheduledVoteCastingStatus)
        ensures
            status == if self == ScheduledVoteCastingStatus::InProgress {
                ScheduledVoteCastingStatus::Failed
            } else {
                self
            },
    {
        match self {
            ScheduledVoteCastingStatus::InProgress => ScheduledVoteCastingStatus::Failed,
            other => other,
        }
    }
}

/// How far the handling of the selected votes has come.
#[derive(Debug, PartialEq, Eq)]
pub enum VoteHandlingStatus {
    NotStarted,
    /// Votes are being cast, since this time in seconds.
    CastingVotes(u64),
    SchedulingVotes,
    Completed,
    Failed(String),
}

pub enum VoteHandlingStatusView {
    NotStarted,
    CastingVotes(u64),
    SchedulingVotes,
    Completed,
    Failed(Seq<char>),
}

impl View for VoteHandlingStatus {
    type V = VoteHandlingStatusView;

    open spec fn view(&self) -> VoteHandlingStatusView {
        match self {
            VoteHandlingStatus::NotStarted => VoteHandlingStatusView::NotStarted,
            VoteHandlingStatus::CastingVotes(since) => VoteHandlingStatusView::CastingVotes(*since),
            VoteHandlingStatus::SchedulingVotes => VoteHandlingStatusView::SchedulingVotes,
            VoteHandlingStatus::Completed => VoteHandlingStatusView::Completed,
            VoteHandlingStatus::Failed(why) => VoteHandlingStatusView::Failed(why@),
        }
    }
}

/// What the handling of the selected votes begins with.
#[derive(Clone, Copy, Debug, PartialEq, Eq, Structural)]
pub enum BulkVotePlan {
    /// No vote is to be cast and none to be scheduled.
    NothingSelected,
    /// Votes are cast now, and none is scheduled.
    CastOnly,
    /// Votes are cast now, and others are scheduled at the same time.
    CastAndSchedule,
    /// Votes are scheduled, and none is cast now.
    ScheduleOnly,
}

impl VoteHandlingStatus {
    /// What the handling of the selected votes begins with, given how many
    /// identities cast now and how many votes are scheduled.
    pub fn plan(immediate: usize, scheduled: usize) -> (plan: BulkVotePlan)
        ensures
            plan == if immediate == 0 && scheduled == 0 {
                BulkVotePlan::NothingSelected
            } else if immediate != 0 && scheduled != 0 {
                BulkVotePlan::CastAndSchedule
            } else if immediate != 0 {
                BulkVotePlan::CastOnly
            } else {
                BulkVotePlan::ScheduleOnly
            },
    {
        if immediate == 0 && scheduled == 0 {
            BulkVotePlan::NothingSelected
        } else if immediate != 0 {
            if scheduled != 0 {
                BulkVotePlan::CastAndSchedule
            } else {
                BulkVotePlan::CastOnly
            }
        } else {
            BulkVotePlan::ScheduleOnly
        }
    }

    /// The status with which the handling of the selected votes begins.
    pub fn begin(plan: BulkVotePlan, now_seconds: u64) -> (status: VoteHandlingStatus)
        ensures
            status@ == match plan {
                BulkVotePlan::NothingSelected => VoteHandlingStatusView::Failed(
                    "No votes selected. Please select votes to cast or schedule."@,
                ),
                BulkVotePlan::CastOnly => VoteHandlingStatusView::CastingVotes(now_seconds),
                BulkVotePlan::CastAndSchedule => VoteHandlingStatusView::CastingVotes(now_seconds),
                BulkVotePlan::ScheduleOnly => VoteHandlingStatusView::SchedulingVotes,
            },
    {
        match plan {
            BulkVotePlan::NothingSelected => VoteHandlingStatus::Failed(
                "No votes selected. Please select votes to cast or schedule.".to_owned(),
            ),
            BulkVotePlan::CastOnly => VoteHandlingStatus::CastingVotes(now_seconds),
            BulkVotePlan::CastAndSchedule => VoteHandlingStatus::CastingVotes(now_seconds),
            BulkVotePlan::ScheduleOnly => VoteHandlingStatus::SchedulingVotes,
        }
    }

    /// The status after the votes were scheduled: the scheduling is
    /// completed; any other status stays.
    pub fn after_votes_scheduled(self) -> (status: VoteHandlingStatus)
        ensures
            status@ == if self@ is SchedulingVotes {
                VoteHandlingStatusView::Completed
            } else {
                self@
            },
    {
        match self {
            VoteHandlingStatus::SchedulingVotes => VoteHandlingStatus::Completed,
            other => other,
        }
    }
}

/// What the window for casting or scheduling the selected votes shows.
#[derive(Clone, Copy, Debug, PartialEq, Eq, Structural)]
pub enum BulkPopupContent {
    /// How the handling of the votes ended.
    Completed,
    /// That no identity is loaded that could vote.
    NoVotingIdentities,
    /// That no vote is selected.
    NoVotesSelected,
    /// The choice, for each identity, of when it votes.
    Options,
}

/// What the window for casting or scheduling the selected votes shows: how
/// the handling ended, once it has; else what is missing, the identities
/// first; else the choices.
pub fn bulk_popup_content(
    status: &VoteHandlingStatus,
    voting_identities: usize,
    selected_votes: usize,
) -> (content: BulkPopupContent)
    ensures
        content == if status@ is Completed {
            BulkPopupContent::Completed
        } else if voting_identities == 0 {
            BulkPopupContent::NoVotingIdentities
        } else if selected_votes == 0 {
            BulkPopupContent::NoVotesSelected
        } else {
            BulkPopupContent::Options
        },
{
    match status {
        VoteHandlingStatus::Completed => {
            return BulkPopupContent::Completed;
        },
        _ => {},
    }
    if voting_identities == 0 {
        BulkPopupContent::NoVotingIdentities
    } else if selected_votes == 0 {
        BulkPopupContent::NoVotesSelected
    } else {
        BulkPopupContent::Options
    }
}

/// Some identity votes at a later time.
pub open spec fn spec_any_scheduled(options: Seq<VoteOption>) -> bool {
    exists|i: int| 0 <= i < options.len() && #[trigger] options[i] is Scheduled
}

/// Whether the window warns that the application has to keep running:
/// it does where some identity votes at a later time.
pub fn any_scheduled(options: &Vec<VoteOption>) -> (warns: bool)
    ensures
        warns == spec_any_scheduled(options@),
{
    let mut i: usize = 0;
    while i < options.len()
        invariant
            i <= options.len(),
            forall|k: int| 0 <= k < i ==> !(#[trigger] options@[k] is Scheduled),
        decreases options.len() - i,
    {
        match options[i] {
            VoteOption::Scheduled { .. } => {
                return true;
            },
            _ => {},
        }
        i = i + 1;
    }
    false
}

/// Whether the list is being loaded anew.
#[derive(Clone, Copy, Debug, PartialEq, Eq, Structural)]
pub enum RefreshingStatus {
    /// The list is being loaded, since this time in seconds.
    Refreshing(u64),
    NotRefreshing,
}

/// What the screen of contested names asks for at the end of a frame, as
/// far as its own state depends on it.
#[derive(Clone, Copy, Debug, PartialEq, Eq, Structural)]
pub enum ScreenRequest {
    /// The backend is to load the contests.
    QueryContests,
    /// The backend is to load the names that the identities own.
    RefreshOwnedNames,
    /// Another screen becomes the main screen.
    SetMainScreen,
    /// Anything else, or nothing.
    Other,
}

impl RefreshingStatus {
    /// The status after the user asked to load the list anew at
    /// `now_seconds`, and whether the loading begins: it does not where a
    /// loading is under way.
    pub fn request(self, now_seconds: u64) -> (result: (RefreshingStatus, bool))
        ensures
            result == if self is Refreshing {
                (self, false)
            } else {
                (RefreshingStatus::Refreshing(now_seconds), true)
            },
    {
        match self {
            RefreshingStatus::Refreshing(_) => (self, false),
            RefreshingStatus::NotRefreshing => (RefreshingStatus::Refreshing(now_seconds), true),
        }
    }

    /// The status after the frame has settled on what the screen asks for,
    /// at `now_seconds`, and whether the message on the screen is taken
    /// off: a loading that is asked for begins now and takes the message
    /// off; a change of the main screen ends the loading; anything else
    /// changes nothing.
    pub fn after_action(self, action: ScreenRequest, now_seconds: u64) -> (result: (
        RefreshingStatus,
        bool,
    ))
        ensures
            result == match action {
                ScreenRequest::QueryContests => (RefreshingStatus::Refreshing(now_seconds), true),
                ScreenRequest::RefreshOwnedNames => (
                    RefreshingStatus::Refreshing(now_seconds),
                    true,
                ),
                ScreenRequest::SetMainScreen => (RefreshingStatus::NotRefreshing, false),
                ScreenRequest::Other => (self, false),
            },
    {
        match action {
            ScreenRequest::QueryContests => (RefreshingStatus::Refreshing(now_seconds), true),
            ScreenRequest::RefreshOwnedNames => (RefreshingStatus::Refreshing(now_seconds), true),
            ScreenRequest::SetMainScreen => (RefreshingStatus::NotRefreshing, false),
            ScreenRequest::Other => (self, false),
        }
    }

    /// For how many seconds the list has been loading; nothing where it is
    /// not loading.
    pub fn elapsed_seconds(self, now_seconds: u64) -> (elapsed: Option<u64>)
        ensures
            elapsed == match self {
                RefreshingStatus::Refreshing(since) => Some(
                    if now_seconds >= since {
                        (now_seconds - since) as u64
                    } else {
                        0
                    },
                ),
                RefreshingStatus::NotRefreshing => None,
            },
    {
        match self {
            RefreshingStatus::Refreshing(since) => Some(now_seconds.saturating_sub(since)),
            RefreshingStatus::NotRefreshing => None,
        }
    }
}

/// Sorting columns.
#[derive(Clone, Copy, Debug, PartialEq, Eq, Structural)]
pub enum SortColumn {
    ContestedName,
    LockedVotes,
    AbstainVotes,
    EndingTime,
    LastUpdated,
    AwardedTo,
}

#[derive(Clone, Copy, Debug, PartialEq, Eq, Structural)]
pub enum SortOrder {
    Ascending,
    Descending,
}

/// The column by which the table is sorted, and the direction.
#[derive(Clone, Copy, Debug, PartialEq, Eq, Structural)]
pub struct Sorting {
    pub sort_column: SortColumn,
    pub sort_order: SortOrder,
}

impl Sorting {
    /// The sorting of a screen that was just opened: by name, ascending.
    pub fn new() -> (sorting: Sorting)
        ensures
            sorting == (Sorting {
                sort_column: SortColumn::ContestedName,
                sort_order: SortOrder::Ascending,
            }),
    {
        Sorting { sort_column: SortColumn::ContestedName, sort_order: SortOrder::Ascending }
    }

    /// The sorting after the head of `column` was clicked: the direction
    /// turns where the table is sorted by that column; otherwise the table
    /// is sorted by that column, ascending.
    pub open spec fn spec_toggled(self, column: SortColumn) -> Sorting {
        if self.sort_column == column {
            Sorting {
                sort_column: column,
                sort_order: match self.sort_order {
                    SortOrder::Ascending => SortOrder::Descending,
                    SortOrder::Descending => SortOrder::Ascending,
                },
            }
        } else {
            Sorting { sort_column: column, sort_order: SortOrder::Ascending }
        }
    }

    /// Takes a click on the head of `column`.
    pub fn toggle_sort(&mut self, column: SortColumn)
        ensures
            *final(self) == old(self).spec_toggled(column),
    {
        if self.sort_column == column {
            self.sort_order = match self.sort_order {
                SortOrder::Ascending => SortOrder::Descending,
                SortOrder::Descending => SortOrder::Ascending,
            };
        } else {
            self.sort_column = column;
            self.sort_order = SortOrder::Ascending;
        }
    }
}

/// Two clicks on the head of the column by which the table is sorted give
/// the sorting back.
pub proof fn lemma_toggle_sort_twice(sorting: Sorting)
    ensures
        sorting.spec_toggled(sorting.sort_column).spec_toggled(sorting.sort_column) == sorting,
{
}

/// Tells whether a message shown at `shown_at_seconds` is to be taken off
/// the screen at `now_seconds`: ten seconds after it was shown.
pub fn message_has_expired(shown_at_seconds: i64, now_seconds: i64) -> (expired: bool)
    ensures
        expired == (now_seconds - shown_at_seconds >= MESSAGE_LIFETIME_SECONDS),
{
    if shown_at_seconds >= 0 {
        now_seconds >= i64::MIN + shown_at_seconds && now_seconds - shown_at_seconds
            >= MESSAGE_LIFETIME_SECONDS
    } else {
        now_seconds > i64::MAX + shown_at_seconds || now_seconds - shown_at_seconds
            >= MESSAGE_LIFETIME_SECONDS
    }
}

/// For how many seconds a message shown at `shown_at_seconds` stays on
/// the screen at `now_seconds`: what is left of its ten seconds, and zero
/// once they have passed.
pub open spec fn spec_message_seconds_left(shown_at_seconds: i64, now_seconds: i64) -> int {
    let left = MESSAGE_LIFETIME_SECONDS - (now_seconds - shown_at_seconds);
    if left < 0 {
        0
    } else if left > i64::MAX {
        i64::MAX as int
    } else {
        left
    }
}

/// For how many seconds the message stays on the screen; the screen shows
/// the number behind the message.
pub fn message_seconds_left(shown_at_seconds: i64, now_seconds: i64) -> (left: i64)
    ensures
        left == spec_message_seconds_left(shown_at_seconds, now_seconds),
{
    let left: i128 = MESSAGE_LIFETIME_SECONDS as i128 - (now_seconds as i128
        - shown_at_seconds as i128);
    if left < 0 {
        0
    } else if left > i64::MAX as i128 {
        i64::MAX
    } else {
        left as i64
    }
}

} // verus!
