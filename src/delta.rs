//! The minimal update of a passport: newly earned achievements and a non-negative score increase.

use vstd::prelude::*;
use crate::contract::{TokenId, UpdateArgs};
use crate::scoring::{AchievementEntry, AchievementResult, EntryView, ResultView};

verus! {

/// What has to be written for one passport.
#[derive(Clone, Debug)]
pub struct UpdateDelta {
    pub new_achievements: Vec<String>,
    pub score_increase: u64,
}

/// The text under which an achievement is recorded: `<code>: <explanation>`.
pub open spec fn label_of(e: EntryView) -> Seq<char> {
    e.code + ": "@ + e.explanation
}

/// The labels of `fresh` that `prior` does not hold, in the order of `fresh`.
pub open spec fn new_labels(fresh: Seq<EntryView>, prior: Seq<Seq<char>>) -> Seq<Seq<char>>
    decreases fresh.len(),
{
    if fresh.len() == 0 {
        Seq::empty()
    } else {
        let earlier = new_labels(fresh.drop_last(), prior);
        let label = label_of(fresh.last());
        if prior.contains(label) {
            earlier
        } else {
            earlier.push(label)
        }
    }
}

/// `fresh - prior` when positive, else zero.
pub open spec fn score_increase_of(prior: u64, fresh: u64) -> u64 {
    if fresh > prior {
        (fresh - prior) as u64
    } else {
        0
    }
}

/// The texts of a list of strings.
pub open spec fn texts(v: Seq<String>) -> Seq<Seq<char>> {
    v.map_values(|s: String| s@)
}

/// The text under which an achievement is recorded.
pub fn achievement_label(e: &AchievementEntry) -> (r: String)
    ensures
        r@ == label_of(e@),
{
    let mut label = e.code.clone();
    label.append(": ");
    label.append(e.explanation.as_str());
    label
}

/// Whether `prior` holds `label`.
fn holds_label(prior: &Vec<String>, label: &String) -> (r: bool)
    ensures
        r == texts(prior@).contains(label@),
{
    let mut i: usize = 0;
    while i < prior.len()
        invariant
            0 <= i <= prior.len(),
            forall|j: int| 0 <= j < i ==> prior@[j]@ != label@,
        decreases prior.len() - i,
    {
        if prior[i] == *label {
            assert(texts(prior@)[i as int] == label@);
            return true;
        }
        i += 1;
    }
    false
}

/// The delta between a recorded passport and a fresh evaluation.
pub fn compute_delta(prior_achievements: &Vec<String>, prior_score: u64, fresh: &AchievementResult) -> (r:
    UpdateDelta)
    ensures
        texts(r.new_achievements@) == new_labels(fresh@.achievements, texts(prior_achievements@)),
        r.score_increase == score_increase_of(prior_score, fresh.score),
        r.score_increase == if fresh.score > prior_score {
            fresh.score - prior_score
        } else {
            0
        },
{
    let ghost entries = fresh@.achievements;
    let ghost prior = texts(prior_achievements@);
    let mut labels: Vec<String> = Vec::new();
    let mut i: usize = 0;
    while i < fresh.achievements.len()
        invariant
            0 <= i <= fresh.achievements.len(),
            entries == fresh@.achievements,
            prior == texts(prior_achievements@),
            texts(labels@) == new_labels(entries.take(i as int), prior),
        decreases fresh.achievements.len() - i,
    {
        let label = achievement_label(&fresh.achievements[i]);
        proof {
            assert(entries.take(i + 1).drop_last() =~= entries.take(i as int));
            assert(entries.take(i + 1).last() == fresh.achievements@[i as int]@);
        }
        if !holds_label(prior_achievements, &label) {
            let ghost before = labels@;
            labels.push(label);
            proof {
                assert(texts(labels@) =~= texts(before).push(label@));
            }
        }
        i += 1;
    }
    proof {
        assert(entries.take(i as int) =~= entries);
    }
    let score_increase = if fresh.score > prior_score {
        fresh.score - prior_score
    } else {
        0
    };
    UpdateDelta { new_achievements: labels, score_increase }
}

/// Whether a delta has anything to write.
pub fn needs_update(delta: &UpdateDelta) -> (r: bool)
    ensures
        r == (delta.new_achievements.len() > 0 || delta.score_increase > 0),
{
    delta.new_achievements.len() > 0 || delta.score_increase > 0
}

/// The update to submit for a passport, or `None` when it is up to date. A missing
/// achievement list counts as empty and a missing score as zero.
pub fn update_for(
    token_id: Vec<u8>,
    prior_achievements: &Option<Vec<String>>,
    prior_score: Option<u64>,
    fresh: &AchievementResult,
) -> (r: Option<UpdateArgs>)
    ensures
        ({
            let prior = match prior_achievements {
                Some(v) => texts(v@),
                None => Seq::empty(),
            };
            let score = match prior_score {
                Some(s) => s,
                None => 0,
            };
            let labels = new_labels(fresh@.achievements, prior);
            let increase = score_increase_of(score, fresh.score);
            &&& r is None <==> (labels.len() == 0 && increase == 0)
            &&& r matches Some(args) ==> {
                &&& args.token_id.id == token_id
                &&& texts(args.new_achievements@) == labels
                &&& args.score_increase == increase
            }
        }),
{
    let empty: Vec<String> = Vec::new();
    let prior = match prior_achievements {
        Some(v) => v,
        None => &empty,
    };
    proof {
        assert(texts(empty@) =~= Seq::<Seq<char>>::empty());
    }
    let score = match prior_score {
        Some(s) => s,
        None => 0,
    };
    let delta = compute_delta(prior, score, fresh);
    if !needs_update(&delta) {
        return None;
    }
    Some(
        UpdateArgs {
            token_id: TokenId { id: token_id },
            new_achievements: delta.new_achievements,
            score_increase: delta.score_increase,
        },
    )
}

/// Re-running an evaluation that changed nothing writes nothing: when the fresh score
/// equals the recorded one and every fresh achievement is already recorded, there are no
/// new achievements and no score increase.
pub proof fn lemma_unchanged_result_needs_no_update(
    prior: Seq<Seq<char>>,
    prior_score: u64,
    fresh: ResultView,
)
    requires
        fresh.score == prior_score,
        forall|i: int|
            0 <= i < fresh.achievements.len() ==> prior.contains(
                #[trigger] label_of(fresh.achievements[i]),
            ),
    ensures
        new_labels(fresh.achievements, prior).len() == 0,
        score_increase_of(prior_score, fresh.score) == 0,
{
    lemma_recorded_labels_are_not_new(fresh.achievements, prior);
}

/// Labels that are all recorded yield no new labels.
proof fn lemma_recorded_labels_are_not_new(fresh: Seq<EntryView>, prior: Seq<Seq<char>>)
    requires
        forall|i: int| 0 <= i < fresh.len() ==> prior.contains(#[trigger] label_of(fresh[i])),
    ensures
        new_labels(fresh, prior).len() == 0,
    decreases fresh.len(),
{
    if fresh.len() > 0 {
        let rest = fresh.drop_last();
        assert forall|i: int| 0 <= i < rest.len() implies prior.contains(#[trigger] label_of(rest[i])) by {
            assert(rest[i] == fresh[i]);
        }
        lemma_recorded_labels_are_not_new(rest, prior);
        assert(prior.contains(label_of(fresh[fresh.len() - 1])));
    }
}

} // verus!
