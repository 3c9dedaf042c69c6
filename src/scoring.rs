//! The observation context handed to scoring, and the scoring result.

use vstd::prelude::*;

verus! {

/// How often one activity category was seen, and the timestamp text of the last event of it.
#[derive(Clone, Debug)]
pub struct ActionEvent {
    pub action_type: String,
    pub count: u64,
    pub last_seen: Option<String>,
}

/// The mathematical content of an [`ActionEvent`].
pub ghost struct ActionView {
    pub action_type: Seq<char>,
    pub count: u64,
    pub last_seen: Option<Seq<char>>,
}

impl View for ActionEvent {
    type V = ActionView;

    open spec fn view(&self) -> ActionView {
        ActionView {
            action_type: self.action_type@,
            count: self.count,
            last_seen: match self.last_seen {
                Some(s) => Some(s@),
                None => None,
            },
        }
    }
}

/// The scalar aggregates derived from an owner's activity.
#[derive(Clone, Copy, Debug, PartialEq, Eq)]
pub struct Aggregates {
    /// The sum of the counts of all categories.
    pub total_actions: u64,
    /// The number of distinct calendar days on which a timestamped event happened.
    pub unique_active_days: u64,
    /// Whole days from the earliest timestamped event until now.
    pub wallet_age_days: u64,
}

/// What the scoring stage sees of one owner.
#[derive(Clone, Debug)]
pub struct ObservationContext {
    pub passport_id: String,
    pub owner: String,
    pub actions: Vec<ActionEvent>,
    pub aggregates: Aggregates,
}

/// The mathematical content of an [`ObservationContext`].
pub ghost struct ContextView {
    pub passport_id: Seq<char>,
    pub owner: Seq<char>,
    pub actions: Seq<ActionView>,
    pub aggregates: Aggregates,
}

impl View for ObservationContext {
    type V = ContextView;

    open spec fn view(&self) -> ContextView {
        ContextView {
            passport_id: self.passport_id@,
            owner: self.owner@,
            actions: self.actions@.map_values(|a: ActionEvent| a@),
            aggregates: self.aggregates,
        }
    }
}

/// One achievement granted by an evaluation.
#[derive(Clone, Debug)]
pub struct AchievementEntry {
    pub code: String,
    pub points: Option<u64>,
    pub explanation: String,
}

/// The mathematical content of an [`AchievementEntry`].
pub ghost struct EntryView {
    pub code: Seq<char>,
    pub points: Option<u64>,
    pub explanation: Seq<char>,
}

impl View for AchievementEntry {
    type V = EntryView;

    open spec fn view(&self) -> EntryView {
        EntryView { code: self.code@, points: self.points, explanation: self.explanation@ }
    }
}

/// A total score and the achievements granted, in rule order.
#[derive(Clone, Debug)]
pub struct AchievementResult {
    pub score: u64,
    pub achievements: Vec<AchievementEntry>,
}

/// The mathematical content of an [`AchievementResult`].
pub ghost struct ResultView {
    pub score: u64,
    pub achievements: Seq<EntryView>,
}

impl View for AchievementResult {
    type V = ResultView;

    open spec fn view(&self) -> ResultView {
        ResultView {
            score: self.score,
            achievements: self.achievements@.map_values(|e: AchievementEntry| e@),
        }
    }
}

/// `x`, or `u64::MAX` when `x` is larger.
pub open spec fn capped(x: int) -> int {
    if x > u64::MAX {
        u64::MAX as int
    } else {
        x
    }
}

/// The sum of the counts of `actions`.
pub open spec fn count_sum(actions: Seq<ActionView>) -> int
    decreases actions.len(),
{
    if actions.len() == 0 {
        0
    } else {
        count_sum(actions.drop_last()) + actions.last().count
    }
}

/// The sum of the counts of `actions`, saturating at `u64::MAX`.
pub fn total_count(actions: &Vec<ActionEvent>) -> (r: u64)
    ensures
        r == capped(count_sum(actions@.map_values(|a: ActionEvent| a@))),
{
    let ghost views = actions@.map_values(|a: ActionEvent| a@);
    let mut total: u64 = 0;
    let mut i: usize = 0;
    while i < actions.len()
        invariant
            0 <= i <= actions.len(),
            views == actions@.map_values(|a: ActionEvent| a@),
            total == capped(count_sum(views.take(i as int))),
        decreases actions.len() - i,
    {
        proof {
            assert(views.take(i + 1).drop_last() =~= views.take(i as int));
        }
        total = total.saturating_add(actions[i].count);
        i += 1;
    }
    proof {
        assert(views.take(i as int) =~= views);
    }
    total
}

} // verus!
