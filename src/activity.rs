//! Normalized activity events and their aggregation into category summaries.

use vstd::prelude::*;
use crate::passport::{PassportInfo, passport_id_of};
use crate::scoring::{
    ActionEvent, ActionView, Aggregates, ObservationContext, capped, count_sum, total_count,
};

verus! {

/// What an event did.
#[derive(Debug)]
pub enum ActivityKind {
    /// A transfer of `amount` (in the ledger's smallest unit) to `recipient`.
    SystemTransfer { amount: u128, recipient: String },
    /// A call of a user application with an opaque payload.
    UserOperation { application_id: String, payload: Vec<u8> },
    /// The creation of an application from a module.
    CreateApplication { module_id: String },
}

/// One operation of an owner, with where it happened and, if known, when (in microseconds).
#[derive(Debug)]
pub struct OwnerActivityEvent {
    pub owner: String,
    pub chain_id: String,
    pub height: u64,
    pub operation_index: u64,
    pub timestamp: Option<u64>,
    pub kind: ActivityKind,
}

impl OwnerActivityEvent {
    /// A transfer event without a timestamp.
    pub fn system_transfer(
        owner: String,
        chain_id: String,
        height: u64,
        operation_index: u64,
        amount: u128,
        recipient: String,
    ) -> (r: Self)
        ensures
            r == (OwnerActivityEvent {
                owner,
                chain_id,
                height,
                operation_index,
                timestamp: None,
                kind: ActivityKind::SystemTransfer { amount, recipient },
            }),
    {
        OwnerActivityEvent {
            owner,
            chain_id,
            height,
            operation_index,
            timestamp: None,
            kind: ActivityKind::SystemTransfer { amount, recipient },
        }
    }

    /// An application call event without a timestamp.
    pub fn user_operation(
        owner: String,
        chain_id: String,
        height: u64,
        operation_index: u64,
        application_id: String,
        payload: Vec<u8>,
    ) -> (r: Self)
        ensures
            r == (OwnerActivityEvent {
                owner,
                chain_id,
                height,
                operation_index,
                timestamp: None,
                kind: ActivityKind::UserOperation { application_id, payload },
            }),
    {
        OwnerActivityEvent {
            owner,
            chain_id,
            height,
            operation_index,
            timestamp: None,
            kind: ActivityKind::UserOperation { application_id, payload },
        }
    }

    /// An application creation event without a timestamp.
    pub fn create_application(
        owner: String,
        chain_id: String,
        height: u64,
        operation_index: u64,
        module_id: String,
    ) -> (r: Self)
        ensures
            r == (OwnerActivityEvent {
                owner,
                chain_id,
                height,
                operation_index,
                timestamp: None,
                kind: ActivityKind::CreateApplication { module_id },
            }),
    {
        OwnerActivityEvent {
            owner,
            chain_id,
            height,
            operation_index,
            timestamp: None,
            kind: ActivityKind::CreateApplication { module_id },
        }
    }
}

/// The text that the ledger library gives a timestamp of `micros` microseconds.
pub uninterp spec fn timestamp_text(micros: u64) -> Seq<char>;

/// Relies on `Display` for `linera_base::data_types::Timestamp`: the text depends on the
/// microsecond count alone.
#[verifier::external_body]
fn format_timestamp(micros: u64) -> (r: String)
    ensures
        r@ == timestamp_text(micros),
{
    linera_base::data_types::Timestamp::from(micros).to_string()
}

/// The category keys that one event increments, in processing order, each with the
/// event's timestamp.
pub open spec fn event_incidences(e: OwnerActivityEvent) -> Seq<(Seq<char>, Option<u64>)> {
    match e.kind {
        ActivityKind::SystemTransfer { .. } => seq![("system_transfer"@, e.timestamp)],
        ActivityKind::UserOperation { application_id, .. } => seq![
            ("user_operation:"@ + application_id@, e.timestamp),
            ("user_operation"@, e.timestamp),
        ],
        ActivityKind::CreateApplication { module_id } => seq![
            ("create_application"@, e.timestamp),
            ("create_application:"@ + module_id@, e.timestamp),
        ],
    }
}

/// Every category increment of `events`, in processing order.
pub open spec fn incidences(events: Seq<OwnerActivityEvent>) -> Seq<(Seq<char>, Option<u64>)>
    decreases events.len(),
{
    if events.len() == 0 {
        Seq::empty()
    } else {
        incidences(events.drop_last()) + event_incidences(events.last())
    }
}

/// How often `key` is incremented.
pub open spec fn incidence_count(inc: Seq<(Seq<char>, Option<u64>)>, key: Seq<char>) -> nat
    decreases inc.len(),
{
    if inc.len() == 0 {
        0
    } else {
        incidence_count(inc.drop_last(), key) + if inc.last().0 == key {
            1nat
        } else {
            0nat
        }
    }
}

/// The timestamp of the last increment of `key` that has one, in processing order;
/// increments without a timestamp leave it as it was.
pub open spec fn last_stamp(inc: Seq<(Seq<char>, Option<u64>)>, key: Seq<char>) -> Option<u64>
    decreases inc.len(),
{
    if inc.len() == 0 {
        None
    } else if inc.last().0 == key && inc.last().1 is Some {
        inc.last().1
    } else {
        last_stamp(inc.drop_last(), key)
    }
}

/// The timestamp text that a category's last-seen field holds.
pub open spec fn seen_text(stamp: Option<u64>) -> Option<Seq<char>> {
    match stamp {
        Some(t) => Some(timestamp_text(t)),
        None => None,
    }
}

/// `actions` holds exactly one summary per incremented key, with its count and the timestamp
/// of its last timestamped increment; the counts add up to the number of increments.
pub open spec fn summarizes(actions: Seq<ActionView>, inc: Seq<(Seq<char>, Option<u64>)>) -> bool {
    &&& forall|i: int, j: int|
        0 <= i < j < actions.len() ==> actions[i].action_type != actions[j].action_type
    &&& forall|i: int|
        0 <= i < actions.len() ==> {
            &&& #[trigger] actions[i].count == incidence_count(inc, actions[i].action_type)
            &&& actions[i].count > 0
            &&& actions[i].last_seen == seen_text(last_stamp(inc, actions[i].action_type))
        }
    &&& forall|k: Seq<char>|
        #[trigger] incidence_count(inc, k) > 0 ==> exists|i: int|
            0 <= i < actions.len() && actions[i].action_type == k
    &&& count_sum(actions) == inc.len()
}

/// The calendar day (since the epoch) of a timestamp in microseconds.
pub open spec fn day_of(micros: u64) -> u64 {
    (micros / 1_000_000 / 86_400) as u64
}

/// The distinct days on which a timestamped event happened.
pub open spec fn active_days(events: Seq<OwnerActivityEvent>) -> Set<u64>
    decreases events.len(),
{
    if events.len() == 0 {
        Set::empty()
    } else {
        let earlier = active_days(events.drop_last());
        match events.last().timestamp {
            Some(t) => earlier.insert(day_of(t)),
            None => earlier,
        }
    }
}

/// The smallest timestamp of `events`.
pub open spec fn earliest_stamp(events: Seq<OwnerActivityEvent>) -> Option<u64>
    decreases events.len(),
{
    if events.len() == 0 {
        None
    } else {
        let earlier = earliest_stamp(events.drop_last());
        match (earlier, events.last().timestamp) {
            (Some(a), Some(b)) => Some(if a <= b { a } else { b }),
            (Some(a), None) => Some(a),
            (None, b) => b,
        }
    }
}

/// Whole days from the earliest timestamp until `now`; zero without timestamps.
pub open spec fn wallet_age_of(events: Seq<OwnerActivityEvent>, now: u64) -> u64 {
    match earliest_stamp(events) {
        Some(first) => {
            let micros: int = if now >= first { now - first } else { 0 };
            (micros / 1_000_000 / 86_400) as u64
        },
        None => 0,
    }
}

/// `count_sum` after one summary is replaced.
proof fn lemma_count_sum_update(s: Seq<ActionView>, j: int, x: ActionView)
    requires
        0 <= j < s.len(),
    ensures
        count_sum(s.update(j, x)) == count_sum(s) - s[j].count + x.count,
    decreases s.len(),
{
    if j == s.len() - 1 {
        assert(s.update(j, x).drop_last() =~= s.drop_last());
    } else {
        lemma_count_sum_update(s.drop_last(), j, x);
        assert(s.update(j, x).drop_last() =~= s.drop_last().update(j, x));
    }
}

/// The summaries of a vector of categories.
pub open spec fn views_of(actions: Seq<ActionEvent>) -> Seq<ActionView> {
    actions.map_values(|a: ActionEvent| a@)
}

/// A key that was never incremented has no last timestamp.
proof fn lemma_unseen_key_has_no_stamp(inc: Seq<(Seq<char>, Option<u64>)>, key: Seq<char>)
    requires
        incidence_count(inc, key) == 0,
    ensures
        last_stamp(inc, key) is None,
    decreases inc.len(),
{
    if inc.len() > 0 {
        lemma_unseen_key_has_no_stamp(inc.drop_last(), key);
    }
}

/// Counts one increment of `key` at `timestamp`. A present timestamp replaces the last-seen
/// text, whatever its value; an absent one keeps it.
fn accumulate_action(
    actions: &mut Vec<ActionEvent>,
    key: String,
    timestamp: Option<u64>,
    Ghost(inc): Ghost<Seq<(Seq<char>, Option<u64>)>>,
)
    requires
        summarizes(views_of(old(actions)@), inc),
        incidence_count(inc, key@) < u64::MAX,
    ensures
        summarizes(views_of(final(actions)@), inc.push((key@, timestamp))),
{
    let ghost inc2 = inc.push((key@, timestamp));
    let ghost old_views = views_of(actions@);
    proof {
        assert(inc2.drop_last() =~= inc);
    }
    let last_seen = match timestamp {
        Some(t) => Some(format_timestamp(t)),
        None => None,
    };
    let mut i: usize = 0;
    while i < actions.len()
        invariant
            0 <= i <= actions.len(),
            actions@ == old(actions)@,
            old_views == views_of(actions@),
            summarizes(old_views, inc),
            incidence_count(inc, key@) < u64::MAX,
            inc2 == inc.push((key@, timestamp)),
            inc2.drop_last() == inc,
            last_seen matches Some(s) ==> timestamp is Some && s@ == timestamp_text(timestamp->Some_0),
            last_seen is None ==> timestamp is None,
            forall|j: int| 0 <= j < i ==> old_views[j].action_type != key@,
        decreases actions.len() - i,
    {
        if actions[i].action_type == key {
            assert(old_views[i as int].count == incidence_count(inc, key@));
            let count = actions[i].count + 1;
            let last_seen = match last_seen {
                Some(text) => Some(text),
                None => match &actions[i].last_seen {
                    Some(text) => Some(text.clone()),
                    None => None,
                },
            };
            let entry = ActionEvent { action_type: key, count, last_seen };
            actions.set(i, entry);
            proof {
                let nv = views_of(actions@);
                assert(nv =~= old_views.update(i as int, entry@));
                lemma_count_sum_update(old_views, i as int, entry@);
                assert forall|k: Seq<char>| #[trigger] incidence_count(inc2, k) > 0 implies exists|
                    j: int,
                | 0 <= j < nv.len() && nv[j].action_type == k by {
                    if k == key@ {
                        assert(nv[i as int].action_type == k);
                    } else {
                        assert(incidence_count(inc, k) > 0);
                        let j = choose|j: int| 0 <= j < old_views.len() && old_views[j].action_type == k;
                        assert(nv[j].action_type == k);
                    }
                }
            }
            return;
        }
        i += 1;
    }
    proof {
        assert(incidence_count(inc, key@) == 0) by {
            if incidence_count(inc, key@) > 0 {
                let j = choose|j: int| 0 <= j < old_views.len() && old_views[j].action_type == key@;
                assert(old_views.len() == i);
                assert(old_views[j].action_type != key@);
            }
        }
        lemma_unseen_key_has_no_stamp(inc, key@);
    }
    let entry = ActionEvent { action_type: key, count: 1, last_seen };
    actions.push(entry);
    proof {
        let nv = views_of(actions@);
        assert(nv =~= old_views.push(entry@));
        assert(nv.drop_last() =~= old_views);
        assert forall|k: Seq<char>| #[trigger] incidence_count(inc2, k) > 0 implies exists|j: int|
            0 <= j < nv.len() && nv[j].action_type == k by {
            if k == key@ {
                assert(nv[old_views.len() as int].action_type == k);
            } else {
                assert(incidence_count(inc, k) > 0);
                let j = choose|j: int| 0 <= j < old_views.len() && old_views[j].action_type == k;
                assert(nv[j].action_type == k);
            }
        }
    }
}

/// Whether `d` is among `days`.
fn contains_day(days: &Vec<u64>, d: u64) -> (r: bool)
    ensures
        r == days@.contains(d),
{
    let mut i: usize = 0;
    while i < days.len()
        invariant
            0 <= i <= days.len(),
            forall|j: int| 0 <= j < i ==> days@[j] != d,
        decreases days.len() - i,
    {
        if days[i] == d {
            return true;
        }
        i += 1;
    }
    false
}

/// The increments of a prefix of events, one event longer.
proof fn lemma_incidences_step(events: Seq<OwnerActivityEvent>, i: int)
    requires
        0 <= i < events.len(),
    ensures
        incidences(events.take(i + 1)) == incidences(events.take(i)) + event_incidences(events[i]),
{
    assert(events.take(i + 1).drop_last() =~= events.take(i));
}

/// Counting over increments followed by one more increment.
proof fn lemma_count_push(inc: Seq<(Seq<char>, Option<u64>)>, x: (Seq<char>, Option<u64>), k: Seq<char>)
    ensures
        incidence_count(inc.push(x), k) == incidence_count(inc, k) + if x.0 == k {
            1nat
        } else {
            0nat
        },
{
    assert(inc.push(x).drop_last() =~= inc);
}

/// Sorts events into category summaries and collects the distinct active days.
fn categorize_activity(events: &Vec<OwnerActivityEvent>) -> (r: (Vec<ActionEvent>, Vec<u64>))
    ensures
        summarizes(views_of(r.0@), incidences(events@)),
        count_sum(views_of(r.0@)) == category_increments(events@),
        r.1@.no_duplicates(),
        r.1@.to_set() == active_days(events@),
{
    let mut actions: Vec<ActionEvent> = Vec::new();
    let mut days: Vec<u64> = Vec::new();
    let mut i: usize = 0;
    proof {
        assert(events@.take(0) =~= Seq::<OwnerActivityEvent>::empty());
        assert(days@.to_set() =~= Set::<u64>::empty());
    }
    while i < events.len()
        invariant
            0 <= i <= events.len(),
            summarizes(views_of(actions@), incidences(events@.take(i as int))),
            forall|k: Seq<char>| #[trigger] incidence_count(incidences(events@.take(i as int)), k) <= i,
            days@.no_duplicates(),
            days@.to_set() == active_days(events@.take(i as int)),
        decreases events.len() - i,
    {
        let event = &events[i];
        let timestamp = event.timestamp;
        let ghost inc = incidences(events@.take(i as int));
        proof {
            lemma_incidences_step(events@, i as int);
            assert(events@.take(i + 1).drop_last() =~= events@.take(i as int));
        }
        match timestamp {
            Some(t) => {
                let d = t / 1_000_000 / 86_400;
                let ghost before = days@;
                proof {
                    assert(events@.take(i + 1).last() == events@[i as int]);
                    assert(active_days(events@.take(i + 1)) == active_days(events@.take(i as int)).insert(d));
                }
                if !contains_day(&days, d) {
                    days.push(d);
                    proof {
                        before.lemma_push_to_set_commute(d);
                    }
                } else {
                    proof {
                        assert(before.to_set().contains(d));
                        assert(before.to_set().insert(d) =~= before.to_set());
                    }
                }
            },
            None => {},
        }
        match &event.kind {
            ActivityKind::SystemTransfer { .. } => {
                let key = "system_transfer".to_string();
                let ghost x = (key@, timestamp);
                accumulate_action(&mut actions, key, timestamp, Ghost(inc));
                proof {
                    assert(inc.push(x) =~= incidences(events@.take(i + 1)));
                    assert forall|k: Seq<char>|
                        #[trigger] incidence_count(incidences(events@.take(i + 1)), k) <= i + 1 by {
                        lemma_count_push(inc, x, k);
                    }
                }
            },
            ActivityKind::UserOperation { application_id, .. } => {
                let mut specific = "user_operation:".to_string();
                specific.append(application_id.as_str());
                let generic = "user_operation".to_string();
                let ghost a = (specific@, timestamp);
                let ghost b = (generic@, timestamp);
                proof {
                    reveal_strlit("user_operation:");
                    reveal_strlit("user_operation");
                    assert(a.0.len() != b.0.len());
                    lemma_count_push(inc, a, b.0);
                }
                accumulate_action(&mut actions, specific, timestamp, Ghost(inc));
                accumulate_action(&mut actions, generic, timestamp, Ghost(inc.push(a)));
                proof {
                    assert(inc.push(a).push(b) =~= incidences(events@.take(i + 1)));
                    assert forall|k: Seq<char>|
                        #[trigger] incidence_count(incidences(events@.take(i + 1)), k) <= i + 1 by {
                        lemma_count_push(inc, a, k);
                        lemma_count_push(inc.push(a), b, k);
                    }
                }
            },
            ActivityKind::CreateApplication { module_id } => {
                let generic = "create_application".to_string();
                let mut specific = "create_application:".to_string();
                specific.append(module_id.as_str());
                let ghost a = (generic@, timestamp);
                let ghost b = (specific@, timestamp);
                proof {
                    reveal_strlit("create_application:");
                    reveal_strlit("create_application");
                    assert(a.0.len() != b.0.len());
                    lemma_count_push(inc, a, b.0);
                }
                accumulate_action(&mut actions, generic, timestamp, Ghost(inc));
                accumulate_action(&mut actions, specific, timestamp, Ghost(inc.push(a)));
                proof {
                    assert(inc.push(a).push(b) =~= incidences(events@.take(i + 1)));
                    assert forall|k: Seq<char>|
                        #[trigger] incidence_count(incidences(events@.take(i + 1)), k) <= i + 1 by {
                        lemma_count_push(inc, a, k);
                        lemma_count_push(inc.push(a), b, k);
                    }
                }
            },
        }
        i += 1;
    }
    proof {
        assert(events@.take(i as int) =~= events@);
        lemma_counts_add_up_to_increments(views_of(actions@), events@);
    }
    (actions, days)
}

/// The smallest timestamp of `events`.
fn earliest_timestamp(events: &Vec<OwnerActivityEvent>) -> (r: Option<u64>)
    ensures
        r == earliest_stamp(events@),
{
    let mut earliest: Option<u64> = None;
    let mut i: usize = 0;
    while i < events.len()
        invariant
            0 <= i <= events.len(),
            earliest == earliest_stamp(events@.take(i as int)),
        decreases events.len() - i,
    {
        proof {
            assert(events@.take(i + 1).drop_last() =~= events@.take(i as int));
        }
        earliest = match (earliest, events[i].timestamp) {
            (Some(a), Some(b)) => Some(if a <= b { a } else { b }),
            (Some(a), None) => Some(a),
            (None, b) => b,
        };
        i += 1;
    }
    proof {
        assert(events@.take(i as int) =~= events@);
    }
    earliest
}

/// The aggregates of a set of category summaries.
fn compute_aggregates(actions: &Vec<ActionEvent>, unique_days: usize, wallet_age_days: u64) -> (r:
    Aggregates)
    ensures
        r.total_actions == capped(count_sum(views_of(actions@))),
        count_sum(views_of(actions@)) <= u64::MAX ==> r.total_actions == count_sum(
            views_of(actions@),
        ),
        r.unique_active_days == unique_days,
        r.wallet_age_days == wallet_age_days,
{
    Aggregates {
        total_actions: total_count(actions),
        unique_active_days: unique_days as u64,
        wallet_age_days,
    }
}

/// Relies on `std::time::SystemTime::elapsed` of the Unix epoch: the current time in
/// microseconds (saturated to `u64`, zero when the clock reads before the epoch).
#[verifier::external_body]
fn now_micros() -> (r: u64) {
    match std::time::UNIX_EPOCH.elapsed() {
        Ok(elapsed) => u64::try_from(elapsed.as_micros()).unwrap_or(u64::MAX),
        Err(_) => 0,
    }
}

/// Category increments of a list of events: one per transfer, two per application call or
/// application creation.
pub open spec fn category_increments(events: Seq<OwnerActivityEvent>) -> nat
    decreases events.len(),
{
    if events.len() == 0 {
        0
    } else {
        category_increments(events.drop_last()) + match events.last().kind {
            ActivityKind::SystemTransfer { .. } => 1nat,
            _ => 2nat,
        }
    }
}

/// The category counts of a summary add up to the category increments of the events: an
/// application call or creation is counted under two keys, so it counts twice.
pub proof fn lemma_counts_add_up_to_increments(
    actions: Seq<ActionView>,
    events: Seq<OwnerActivityEvent>,
)
    requires
        summarizes(actions, incidences(events)),
    ensures
        count_sum(actions) == category_increments(events),
{
    lemma_incidences_len(events);
}

/// The number of increments is the weighted event count.
proof fn lemma_incidences_len(events: Seq<OwnerActivityEvent>)
    ensures
        incidences(events).len() == category_increments(events),
    decreases events.len(),
{
    if events.len() > 0 {
        lemma_incidences_len(events.drop_last());
    }
}

impl ObservationContext {
    /// The context of a passport and its owner's activity, with wallet age measured up to
    /// `now_micros`.
    pub fn from_passport_at(
        passport: PassportInfo,
        activity: Vec<OwnerActivityEvent>,
        now_micros: u64,
    ) -> (r: ObservationContext)
        ensures
            r.passport_id@ == passport_id_of(passport),
            r.owner == passport.owner,
            summarizes(r@.actions, incidences(activity@)),
            r.aggregates.total_actions == capped(count_sum(r@.actions)),
            r.aggregates.total_actions == capped(category_increments(activity@) as int),
            r.aggregates.unique_active_days == active_days(activity@).len(),
            r.aggregates.wallet_age_days == wallet_age_of(activity@, now_micros),
    {
        let passport_id = passport.passport_id();
        let wallet_age_days = match earliest_timestamp(&activity) {
            Some(first) => now_micros.saturating_sub(first) / 1_000_000 / 86_400,
            None => 0,
        };
        let (actions, unique_days) = categorize_activity(&activity);
        let aggregates = compute_aggregates(&actions, unique_days.len(), wallet_age_days);
        proof {
            unique_days@.unique_seq_to_set();
            lemma_counts_add_up_to_increments(views_of(actions@), activity@);
        }
        ObservationContext { passport_id, owner: passport.owner, actions, aggregates }
    }

    /// The context of a passport and its owner's activity, with wallet age measured up to
    /// the current time.
    pub fn from_passport(passport: PassportInfo, activity: Vec<OwnerActivityEvent>) -> (r:
        ObservationContext)
        ensures
            r.passport_id@ == passport_id_of(passport),
            r.owner == passport.owner,
            summarizes(r@.actions, incidences(activity@)),
            r.aggregates.total_actions == capped(count_sum(r@.actions)),
            r.aggregates.total_actions == capped(category_increments(activity@) as int),
            r.aggregates.unique_active_days == active_days(activity@).len(),
            earliest_stamp(activity@) is None ==> r.aggregates.wallet_age_days == 0,
    {
        let now = now_micros();
        ObservationContext::from_passport_at(passport, activity, now)
    }
}

} // verus!
