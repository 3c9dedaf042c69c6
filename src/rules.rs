//! The rule engine: the shape check of a rule document, its typed form, and
//! the evaluation of a document against an observation context.

use vstd::prelude::*;
use crate::json::{Json, lookup};
use crate::scoring::{
    AchievementEntry, AchievementResult, ActionEvent, ActionView, ContextView, EntryView, ObservationContext,
    ResultView, capped, count_sum, total_count,
};

verus! {

/// Why a rule document could not be used.
#[derive(Clone, Copy, Debug, PartialEq, Eq)]
pub enum ScoringError {
    /// The document does not have the required shape.
    Schema,
    /// The document sets `transactions_per_point` to zero.
    ZeroRatio,
}

/// The numeric parameters of the score formula.
#[derive(Clone, Copy, Debug, PartialEq, Eq)]
pub struct ScoringRules {
    pub transactions_per_point: u64,
    pub daily_activity_points: u64,
    pub wallet_age_points_per_day: u64,
}

/// One predicate of an achievement's condition.
#[derive(Clone, Debug)]
pub enum Predicate {
    /// A category with exactly this key exists, with at least `min_count` events if given.
    ActionCount { category: String, min_count: Option<u64> },
    /// The total transaction count is at least `min_count`, if given.
    TotalTransactions { min_count: Option<u64> },
    /// A `create_application` category exists.
    AppCreation,
    /// At least `min` distinct active days, if given.
    UniqueActiveDays { min: Option<u64> },
    /// A wallet age of at least `min` days, if given.
    WalletAgeDays { min: Option<u64> },
    /// A key this engine does not know; it never fails a condition.
    Unrecognized { key: String },
}

/// One achievement rule of a document.
#[derive(Clone, Debug)]
pub struct AchievementRule {
    pub code: String,
    pub explanation: String,
    pub points: Option<u64>,
    /// The predicates that must all hold; `None` when the rule has no condition.
    pub condition: Option<Vec<Predicate>>,
}

/// The mathematical content of an [`AchievementRule`].
pub ghost struct RuleView {
    pub code: Seq<char>,
    pub explanation: Seq<char>,
    pub points: Option<u64>,
    pub condition: Option<Seq<Predicate>>,
}

impl View for AchievementRule {
    type V = RuleView;

    open spec fn view(&self) -> RuleView {
        RuleView {
            code: self.code@,
            explanation: self.explanation@,
            points: self.points,
            condition: condition_view(self.condition),
        }
    }
}

/// The predicates of a condition, as a sequence.
pub open spec fn condition_view(condition: Option<Vec<Predicate>>) -> Option<Seq<Predicate>> {
    match condition {
        Some(ps) => Some(ps@),
        None => None,
    }
}

/// A rule document that passed the shape check.
#[derive(Clone, Debug)]
pub struct RuleDocument {
    pub scoring: ScoringRules,
    pub achievements: Vec<AchievementRule>,
}

/// The mathematical content of a [`RuleDocument`].
pub ghost struct DocumentView {
    pub scoring: ScoringRules,
    pub achievements: Seq<RuleView>,
}

impl View for RuleDocument {
    type V = DocumentView;

    open spec fn view(&self) -> DocumentView {
        DocumentView {
            scoring: self.scoring,
            achievements: self.achievements@.map_values(|r: AchievementRule| r@),
        }
    }
}

// ---------------------------------------------------------------------------
// The shape of a rule document

/// A member that is absent, or present and an integer.
pub open spec fn optional_integer(v: Option<Json>) -> bool {
    match v {
        Some(x) => x.is_integer(),
        None => true,
    }
}

/// `scoring_rules` is absent, or an object whose ratio fields are integers when present.
pub open spec fn scoring_conforms(v: Option<Json>) -> bool {
    match v {
        Some(s) => {
            &&& s is Object
            &&& optional_integer(s.field("transactions_per_point"@))
            &&& optional_integer(s.field("base_multiplier"@))
        },
        None => true,
    }
}

/// An achievement entry is an object with text `code` and `explanation`, an optional
/// non-negative integer `points` and an optional object `condition`.
pub open spec fn entry_conforms(e: Json) -> bool {
    &&& e is Object
    &&& e.field("code"@) matches Some(Json::Text(_))
    &&& e.field("explanation"@) matches Some(Json::Text(_))
    &&& match e.field("points"@) {
        Some(p) => p.is_nonneg_integer(),
        None => true,
    }
    &&& match e.field("condition"@) {
        Some(c) => c is Object,
        None => true,
    }
}

/// The document is an object with an `achievements` array of conforming entries, and
/// conforming `scoring_rules`.
pub open spec fn conforms(doc: Json) -> bool {
    &&& doc is Object
    &&& scoring_conforms(doc.field("scoring_rules"@))
    &&& achievements_conform(doc.field("achievements"@))
}

/// `achievements` is present and an array of conforming entries.
pub open spec fn achievements_conform(v: Option<Json>) -> bool {
    match v {
        Some(Json::Array(items)) => forall|i: int|
            0 <= i < items@.len() ==> #[trigger] entry_conforms(items@[i]),
        _ => false,
    }
}

// ---------------------------------------------------------------------------
// The typed form of a conforming document

/// The number in `v`, when it is a non-negative integer that fits in `u64`.
pub open spec fn optional_u64(v: Option<Json>) -> Option<u64> {
    match v {
        Some(x) => x.u64_value(),
        None => None,
    }
}

/// The text in `v`, or the empty text.
pub open spec fn text_or_empty(v: Option<Json>) -> Seq<char> {
    match v {
        Some(Json::Text(s)) => s@,
        _ => Seq::empty(),
    }
}

/// A scoring parameter of the document, or `default` when it is absent or not a `u64`.
pub open spec fn setting(doc: Json, key: Seq<char>, default: u64) -> u64 {
    match doc.field("scoring_rules"@) {
        Some(s) => match optional_u64(s.field(key)) {
            Some(n) => n,
            None => default,
        },
        None => default,
    }
}

/// The scoring parameters of a document, with their defaults 10, 10 and 1.
pub open spec fn scoring_of(doc: Json) -> ScoringRules {
    ScoringRules {
        transactions_per_point: setting(doc, "transactions_per_point"@, 10),
        daily_activity_points: setting(doc, "daily_activity_points"@, 10),
        wallet_age_points_per_day: setting(doc, "wallet_age_points_per_day"@, 1),
    }
}

/// The predicate that a condition member named `key` with value `constraint` stands for.
pub open spec fn predicate_of(key: String, constraint: Json) -> Predicate {
    if key@ == "system_transfer"@ || key@ == "user_operation"@ {
        Predicate::ActionCount {
            category: key,
            min_count: optional_u64(constraint.field("min_count"@)),
        }
    } else if key@ == "total_transactions"@ {
        Predicate::TotalTransactions { min_count: optional_u64(constraint.field("min_count"@)) }
    } else if key@ == "app_creation"@ {
        Predicate::AppCreation
    } else if key@ == "unique_active_days"@ {
        Predicate::UniqueActiveDays { min: optional_u64(constraint.field("min"@)) }
    } else if key@ == "wallet_age_days"@ {
        Predicate::WalletAgeDays { min: optional_u64(constraint.field("min"@)) }
    } else {
        Predicate::Unrecognized { key }
    }
}

/// The predicates of the members of a condition object, in member order.
pub open spec fn predicates_of(members: Seq<(String, Json)>) -> Seq<Predicate> {
    members.map_values(|m: (String, Json)| predicate_of(m.0, m.1))
}

/// The rule that a conforming achievement entry stands for.
pub open spec fn rule_of(e: Json) -> RuleView {
    RuleView {
        code: text_or_empty(e.field("code"@)),
        explanation: text_or_empty(e.field("explanation"@)),
        points: optional_u64(e.field("points"@)),
        condition: match e.field("condition"@) {
            Some(Json::Object(members)) => Some(predicates_of(members@)),
            _ => None,
        },
    }
}

/// The typed form of a conforming document.
pub open spec fn document_of(doc: Json) -> DocumentView {
    DocumentView {
        scoring: scoring_of(doc),
        achievements: match doc.field("achievements"@) {
            Some(Json::Array(items)) => items@.map_values(|e: Json| rule_of(e)),
            _ => Seq::empty(),
        },
    }
}

/// One entry that does not conform spoils the whole document.
proof fn lemma_bad_entry(doc: Json, items: Vec<Json>, i: int)
    requires
        doc.field("achievements"@) == Some(Json::Array(items)),
        0 <= i < items@.len(),
        !entry_conforms(items@[i]),
    ensures
        !conforms(doc),
{
    let v = doc.field("achievements"@);
    assert(v == Some(Json::Array(items)));
    assert(v->Some_0 == Json::Array(items));
    assert(v->Some_0->Array_0 == items);
    assert(achievements_conform(v) ==> entry_conforms(items@[i]));
    assert(!achievements_conform(v));
}

/// Whether `key` spells `name`.
fn is_named(key: &String, name: &str) -> (r: bool)
    ensures
        r == (key@ == name@),
{
    *key == name.to_string()
}

/// The number in a member, when it is a non-negative integer that fits in `u64`.
fn member_u64(v: &Json, key: &str) -> (r: Option<u64>)
    ensures
        r == optional_u64(v.field(key@)),
{
    match v.get(key) {
        Some(x) => x.as_u64(),
        None => None,
    }
}

/// The predicate that a condition member stands for.
fn make_predicate(key: &String, constraint: &Json) -> (p: Predicate)
    ensures
        p == predicate_of(*key, *constraint),
{
    if is_named(key, "system_transfer") || is_named(key, "user_operation") {
        Predicate::ActionCount { category: key.clone(), min_count: member_u64(constraint, "min_count") }
    } else if is_named(key, "total_transactions") {
        Predicate::TotalTransactions { min_count: member_u64(constraint, "min_count") }
    } else if is_named(key, "app_creation") {
        Predicate::AppCreation
    } else if is_named(key, "unique_active_days") {
        Predicate::UniqueActiveDays { min: member_u64(constraint, "min") }
    } else if is_named(key, "wallet_age_days") {
        Predicate::WalletAgeDays { min: member_u64(constraint, "min") }
    } else {
        Predicate::Unrecognized { key: key.clone() }
    }
}

/// The predicates of a condition object.
fn make_condition(members: &Vec<(String, Json)>) -> (r: Vec<Predicate>)
    ensures
        r@ == predicates_of(members@),
{
    let mut preds: Vec<Predicate> = Vec::new();
    let mut i: usize = 0;
    while i < members.len()
        invariant
            0 <= i <= members.len(),
            preds@ == predicates_of(members@.take(i as int)),
        decreases members.len() - i,
    {
        let p = make_predicate(&members[i].0, &members[i].1);
        preds.push(p);
        i += 1;
        proof {
            assert(preds@ =~= predicates_of(members@.take(i as int)));
        }
    }
    proof {
        assert(members@.take(i as int) =~= members@);
    }
    preds
}

/// The text of a member, or the empty text.
fn member_text(v: &Json, key: &str) -> (r: String)
    ensures
        r@ == text_or_empty(v.field(key@)),
{
    match v.get(key) {
        Some(Json::Text(s)) => s.clone(),
        _ => String::new(),
    }
}

/// Checks one achievement entry and builds its rule.
fn make_rule(e: &Json) -> (r: Option<AchievementRule>)
    ensures
        r is Some <==> entry_conforms(*e),
        r is Some ==> r->Some_0@ == rule_of(*e),
{
    match e {
        Json::Object(_) => {},
        _ => return None,
    }
    match e.get("code") {
        Some(Json::Text(_)) => {},
        _ => return None,
    }
    match e.get("explanation") {
        Some(Json::Text(_)) => {},
        _ => return None,
    }
    match e.get("points") {
        Some(p) => {
            if !p.check_nonneg_integer() {
                return None;
            }
        },
        None => {},
    }
    let condition = match e.get("condition") {
        Some(Json::Object(members)) => Some(make_condition(members)),
        Some(_) => return None,
        None => None,
    };
    Some(AchievementRule {
        code: member_text(e, "code"),
        explanation: member_text(e, "explanation"),
        points: member_u64(e, "points"),
        condition,
    })
}

/// Whether an optional member is absent or an integer.
fn check_optional_integer(v: &Json, key: &str) -> (r: bool)
    ensures
        r == optional_integer(v.field(key@)),
{
    match v.get(key) {
        Some(x) => x.check_integer(),
        None => true,
    }
}

/// A scoring parameter, or `default` when it is absent or not a `u64`.
fn read_setting(doc: &Json, key: &str, default: u64) -> (r: u64)
    ensures
        r == setting(*doc, key@, default),
{
    match doc.get("scoring_rules") {
        Some(s) => match member_u64(s, key) {
            Some(n) => n,
            None => default,
        },
        None => default,
    }
}

/// Checks the shape of a rule document and returns its typed form.
pub fn validate_rules(doc: &Json) -> (r: Result<RuleDocument, ScoringError>)
    ensures
        r is Ok <==> conforms(*doc),
        r is Err ==> r == Err::<RuleDocument, ScoringError>(ScoringError::Schema),
        r is Ok ==> r->Ok_0@ == document_of(*doc),
{
    match doc {
        Json::Object(_) => {},
        _ => return Err(ScoringError::Schema),
    }
    match doc.get("scoring_rules") {
        Some(s) => {
            match s {
                Json::Object(_) => {},
                _ => return Err(ScoringError::Schema),
            }
            if !check_optional_integer(s, "transactions_per_point") || !check_optional_integer(
                s,
                "base_multiplier",
            ) {
                return Err(ScoringError::Schema);
            }
        },
        None => {},
    }
    let items = match doc.get("achievements") {
        Some(Json::Array(items)) => items,
        _ => return Err(ScoringError::Schema),
    };
    let ghost item_views = items@;
    let mut rules: Vec<AchievementRule> = Vec::new();
    let mut i: usize = 0;
    while i < items.len()
        invariant
            0 <= i <= items.len(),
            item_views == items@,
            doc.field("achievements"@) == Some(Json::Array(*items)),
            rules.len() == i,
            forall|j: int| 0 <= j < i ==> #[trigger] entry_conforms(item_views[j]),
            rules@.map_values(|r: AchievementRule| r@) == item_views.take(i as int).map_values(
                |e: Json| rule_of(e),
            ),
        decreases items.len() - i,
    {
        let ghost before = rules@;
        match make_rule(&items[i]) {
            Some(rule) => {
                rules.push(rule);
            },
            None => {
                proof {
                    assert(!entry_conforms(item_views[i as int]));
                    assert(items@[i as int] == item_views[i as int]);
                    lemma_bad_entry(*doc, *items, i as int);
                }
                return Err(ScoringError::Schema);
            },
        }
        proof {
            let done = item_views.take(i + 1).map_values(|e: Json| rule_of(e));
            assert forall|k: int| 0 <= k < i implies rules@[k]@ == done[k] by {
                assert(rules@[k] == before[k]);
                assert(before.map_values(|r: AchievementRule| r@)[k] == item_views.take(
                    i as int,
                ).map_values(|e: Json| rule_of(e))[k]);
            }
            assert(rules@.map_values(|r: AchievementRule| r@) =~= done);
        }
        i += 1;
    }
    proof {
        assert(item_views.take(i as int) =~= item_views);
    }
    let scoring = ScoringRules {
        transactions_per_point: read_setting(doc, "transactions_per_point", 10),
        daily_activity_points: read_setting(doc, "daily_activity_points", 10),
        wallet_age_points_per_day: read_setting(doc, "wallet_age_points_per_day", 1),
    };
    Ok(RuleDocument { scoring, achievements: rules })
}

// ---------------------------------------------------------------------------
// Evaluation

/// The count of the first category whose key is `key`.
pub open spec fn action_count_of(actions: Seq<ActionView>, key: Seq<char>) -> Option<u64>
    decreases actions.len(),
{
    if actions.len() == 0 {
        None
    } else if actions[0].action_type == key {
        Some(actions[0].count)
    } else {
        action_count_of(actions.drop_first(), key)
    }
}

/// Skipping categories with other keys does not change the count found.
proof fn lemma_action_count_skip(actions: Seq<ActionView>, key: Seq<char>, i: int)
    requires
        0 <= i <= actions.len(),
        forall|j: int| 0 <= j < i ==> actions[j].action_type != key,
    ensures
        action_count_of(actions, key) == action_count_of(
            actions.subrange(i, actions.len() as int),
            key,
        ),
    decreases i,
{
    if i == 0 {
        assert(actions.subrange(0, actions.len() as int) =~= actions);
    } else {
        let rest = actions.drop_first();
        assert forall|j: int| 0 <= j < i - 1 implies rest[j].action_type != key by {
            assert(rest[j] == actions[j + 1]);
        }
        lemma_action_count_skip(rest, key, i - 1);
        assert(rest.subrange(i - 1, rest.len() as int) =~= actions.subrange(
            i,
            actions.len() as int,
        ));
    }
}

/// `value` reaches the threshold, or there is none.
pub open spec fn at_least(min: Option<u64>, value: u64) -> bool {
    match min {
        Some(m) => value >= m,
        None => true,
    }
}

/// Whether one predicate holds of a context whose total transaction count is `total`.
pub open spec fn predicate_holds(p: Predicate, ctx: ContextView, total: u64) -> bool {
    match p {
        Predicate::ActionCount { category, min_count } => match action_count_of(
            ctx.actions,
            category@,
        ) {
            Some(c) => at_least(min_count, c),
            None => false,
        },
        Predicate::TotalTransactions { min_count } => at_least(min_count, total),
        Predicate::AppCreation => action_count_of(ctx.actions, "create_application"@) is Some,
        Predicate::UniqueActiveDays { min } => at_least(min, ctx.aggregates.unique_active_days),
        Predicate::WalletAgeDays { min } => at_least(min, ctx.aggregates.wallet_age_days),
        Predicate::Unrecognized { .. } => true,
    }
}

/// A missing condition always holds; otherwise every predicate must hold.
pub open spec fn condition_holds(condition: Option<Seq<Predicate>>, ctx: ContextView, total: u64) -> bool {
    match condition {
        Some(ps) => forall|i: int| 0 <= i < ps.len() ==> #[trigger] predicate_holds(ps[i], ctx, total),
        None => true,
    }
}

/// The achievement that a matched rule grants.
pub open spec fn entry_of(rule: RuleView) -> EntryView {
    EntryView { code: rule.code, points: rule.points, explanation: rule.explanation }
}

/// The achievements granted by `rules`, in rule order.
pub open spec fn matched(rules: Seq<RuleView>, ctx: ContextView, total: u64) -> Seq<EntryView>
    decreases rules.len(),
{
    if rules.len() == 0 {
        Seq::empty()
    } else {
        let earlier = matched(rules.drop_last(), ctx, total);
        if condition_holds(rules.last().condition, ctx, total) {
            earlier.push(entry_of(rules.last()))
        } else {
            earlier
        }
    }
}

/// The sum of the points of `entries`, counting an absent value as zero.
pub open spec fn points_total(entries: Seq<EntryView>) -> int
    decreases entries.len(),
{
    if entries.len() == 0 {
        0
    } else {
        points_total(entries.drop_last()) + match entries.last().points {
            Some(p) => p as int,
            None => 0,
        }
    }
}

/// The total transaction count of a context: the sum of its category counts, saturated.
pub open spec fn total_transactions(ctx: ContextView) -> u64 {
    capped(count_sum(ctx.actions)) as u64
}

/// The score formula: base score, daily bonus, age bonus and achievement points, saturated.
pub open spec fn score_of(scoring: ScoringRules, ctx: ContextView, granted: Seq<EntryView>) -> u64
    recommends
        scoring.transactions_per_point > 0,
{
    let base = total_transactions(ctx) / scoring.transactions_per_point;
    let daily = ctx.aggregates.unique_active_days * scoring.daily_activity_points;
    let age = ctx.aggregates.wallet_age_days * scoring.wallet_age_points_per_day;
    capped(base + daily + age + points_total(granted)) as u64
}

/// The result of evaluating a typed document against a context.
pub open spec fn evaluation_of(doc: DocumentView, ctx: ContextView) -> ResultView {
    let granted = matched(doc.achievements, ctx, total_transactions(ctx));
    ResultView { score: score_of(doc.scoring, ctx, granted), achievements: granted }
}

/// The count of the first category whose key is `key`.
fn find_action_count(actions: &Vec<ActionEvent>, key: &String) -> (r: Option<u64>)
    ensures
        r == action_count_of(actions@.map_values(|a: ActionEvent| a@), key@),
{
    let ghost views = actions@.map_values(|a: ActionEvent| a@);
    let mut i: usize = 0;
    while i < actions.len()
        invariant
            0 <= i <= actions.len(),
            views == actions@.map_values(|a: ActionEvent| a@),
            forall|j: int| 0 <= j < i ==> views[j].action_type != key@,
        decreases actions.len() - i,
    {
        if actions[i].action_type == *key {
            proof {
                lemma_action_count_skip(views, key@, i as int);
                let rest = views.subrange(i as int, views.len() as int);
                assert(rest[0] == views[i as int]);
            }
            return Some(actions[i].count);
        }
        i += 1;
    }
    proof {
        lemma_action_count_skip(views, key@, i as int);
    }
    None
}

/// `value` reaches the threshold, or there is none.
fn reaches(min: Option<u64>, value: u64) -> (r: bool)
    ensures
        r == at_least(min, value),
{
    match min {
        Some(m) => value >= m,
        None => true,
    }
}

/// Whether one predicate holds of `ctx`, whose total transaction count is `total`.
pub fn predicate_matches(p: &Predicate, ctx: &ObservationContext, total: u64) -> (r: bool)
    ensures
        r == predicate_holds(*p, ctx@, total),
{
    match p {
        Predicate::ActionCount { category, min_count } => match find_action_count(
            &ctx.actions,
            category,
        ) {
            Some(c) => reaches(*min_count, c),
            None => false,
        },
        Predicate::TotalTransactions { min_count } => reaches(*min_count, total),
        Predicate::AppCreation => {
            let key = "create_application".to_string();
            find_action_count(&ctx.actions, &key).is_some()
        },
        Predicate::UniqueActiveDays { min } => reaches(*min, ctx.aggregates.unique_active_days),
        Predicate::WalletAgeDays { min } => reaches(*min, ctx.aggregates.wallet_age_days),
        Predicate::Unrecognized { .. } => true,
    }
}

/// Whether a condition holds: all of its predicates, or no condition at all.
pub fn condition_matches(
    condition: &Option<Vec<Predicate>>,
    ctx: &ObservationContext,
    total: u64,
) -> (r: bool)
    ensures
        r == condition_holds(condition_view(*condition), ctx@, total),
{
    match condition {
        None => true,
        Some(ps) => {
            let r = all_hold(ps, ctx, total);
            proof {
                assert(condition_view(*condition) == Some(ps@));
            }
            r
        },
    }
}

/// Whether every predicate of `ps` holds.
fn all_hold(ps: &Vec<Predicate>, ctx: &ObservationContext, total: u64) -> (r: bool)
    ensures
        r == condition_holds(Some(ps@), ctx@, total),
{
    let mut i: usize = 0;
    while i < ps.len()
        invariant
            0 <= i <= ps.len(),
            forall|j: int| 0 <= j < i ==> #[trigger] predicate_holds(ps@[j], ctx@, total),
        decreases ps.len() - i,
    {
        if !predicate_matches(&ps[i], ctx, total) {
            proof {
                let c = Some(ps@);
                assert(c->Some_0 == ps@);
                assert(condition_holds(c, ctx@, total) ==> predicate_holds(ps@[i as int], ctx@, total));
            }
            return false;
        }
        i += 1;
    }
    true
}

/// The achievements that `rules` grant in `ctx`, in rule order.
pub fn apply_rules(rules: &Vec<AchievementRule>, ctx: &ObservationContext, total: u64) -> (r: Vec<
    AchievementEntry,
>)
    ensures
        r@.map_values(|e: AchievementEntry| e@) == matched(
            rules@.map_values(|r: AchievementRule| r@),
            ctx@,
            total,
        ),
{
    let ghost views = rules@.map_values(|r: AchievementRule| r@);
    let mut results: Vec<AchievementEntry> = Vec::new();
    let mut i: usize = 0;
    while i < rules.len()
        invariant
            0 <= i <= rules.len(),
            views == rules@.map_values(|r: AchievementRule| r@),
            results@.map_values(|e: AchievementEntry| e@) == matched(views.take(i as int), ctx@, total),
        decreases rules.len() - i,
    {
        let rule = &rules[i];
        let ghost before = results@;
        proof {
            assert(views.take(i + 1).drop_last() =~= views.take(i as int));
            assert(views.take(i + 1).last() == views[i as int]);
        }
        if condition_matches(&rule.condition, ctx, total) {
            let entry = AchievementEntry {
                code: rule.code.clone(),
                points: rule.points,
                explanation: rule.explanation.clone(),
            };
            results.push(entry);
            proof {
                assert(results@.map_values(|e: AchievementEntry| e@) =~= before.map_values(
                    |e: AchievementEntry| e@,
                ).push(entry_of(views[i as int])));
            }
        }
        i += 1;
    }
    proof {
        assert(views.take(i as int) =~= views);
    }
    results
}

/// The base score: one point per `transactions_per_point` transactions, rounded down.
pub fn compute_base_score(total_transactions: u64, transactions_per_point: u64) -> (r: u64)
    requires
        transactions_per_point > 0,
    ensures
        r == total_transactions / transactions_per_point,
{
    total_transactions / transactions_per_point
}

/// `a * b`, saturating at `u64::MAX`.
fn capped_product(a: u64, b: u64) -> (r: u64)
    ensures
        r == capped(a * b),
{
    match a.checked_mul(b) {
        Some(p) => p,
        None => u64::MAX,
    }
}

/// The sum of the points of `entries`, saturating at `u64::MAX`.
fn points_sum(entries: &Vec<AchievementEntry>) -> (r: u64)
    ensures
        r == capped(points_total(entries@.map_values(|e: AchievementEntry| e@))),
{
    let ghost views = entries@.map_values(|e: AchievementEntry| e@);
    let mut total: u64 = 0;
    let mut i: usize = 0;
    while i < entries.len()
        invariant
            0 <= i <= entries.len(),
            views == entries@.map_values(|e: AchievementEntry| e@),
            total == capped(points_total(views.take(i as int))),
        decreases entries.len() - i,
    {
        proof {
            assert(views.take(i + 1).drop_last() =~= views.take(i as int));
        }
        let p = match entries[i].points {
            Some(p) => p,
            None => 0,
        };
        total = total.saturating_add(p);
        i += 1;
    }
    proof {
        assert(views.take(i as int) =~= views);
    }
    total
}

/// Evaluates a checked document against a context.
pub fn evaluate_document(doc: &RuleDocument, ctx: &ObservationContext) -> (r: Result<
    AchievementResult,
    ScoringError,
>)
    ensures
        r is Err <==> doc.scoring.transactions_per_point == 0,
        r is Err ==> r == Err::<AchievementResult, ScoringError>(ScoringError::ZeroRatio),
        r is Ok ==> r->Ok_0@ == evaluation_of(doc@, ctx@),
{
    let scoring = doc.scoring;
    if scoring.transactions_per_point == 0 {
        return Err(ScoringError::ZeroRatio);
    }
    let total = total_count(&ctx.actions);
    let base = compute_base_score(total, scoring.transactions_per_point);
    let daily_bonus = capped_product(ctx.aggregates.unique_active_days, scoring.daily_activity_points);
    let age_bonus = capped_product(ctx.aggregates.wallet_age_days, scoring.wallet_age_points_per_day);
    let achievements = apply_rules(&doc.achievements, ctx, total);
    let achievement_points = points_sum(&achievements);
    let score = base.saturating_add(daily_bonus).saturating_add(age_bonus).saturating_add(
        achievement_points,
    );
    let result = AchievementResult { score, achievements };
    proof {
        assert(result@.achievements == matched(doc@.achievements, ctx@, total_transactions(ctx@)));
    }
    Ok(result)
}

/// Checks a rule document and evaluates it against a context.
pub fn evaluate_rules(doc: &Json, ctx: &ObservationContext) -> (r: Result<AchievementResult, ScoringError>)
    ensures
        r == Err::<AchievementResult, ScoringError>(ScoringError::Schema) <==> !conforms(*doc),
        r == Err::<AchievementResult, ScoringError>(ScoringError::ZeroRatio) <==> conforms(*doc)
            && scoring_of(*doc).transactions_per_point == 0,
        r is Ok ==> r->Ok_0@ == evaluation_of(document_of(*doc), ctx@),
{
    let rules = validate_rules(doc)?;
    evaluate_document(&rules, ctx)
}

/// The rules whose conditions hold, in document order.
pub open spec fn rules_that_hold(rules: Seq<RuleView>, ctx: ContextView, total: u64) -> Seq<RuleView> {
    rules.filter(|r: RuleView| condition_holds(r.condition, ctx, total))
}

/// The granted achievements are those of the rules whose conditions hold, in order.
proof fn lemma_matched_is_filter(rules: Seq<RuleView>, ctx: ContextView, total: u64)
    ensures
        matched(rules, ctx, total) == rules_that_hold(rules, ctx, total).map_values(
            |r: RuleView| entry_of(r),
        ),
    decreases rules.len(),
{
    reveal(Seq::filter);
    if rules.len() > 0 {
        lemma_matched_is_filter(rules.drop_last(), ctx, total);
        let earlier = rules_that_hold(rules.drop_last(), ctx, total);
        if condition_holds(rules.last().condition, ctx, total) {
            assert(earlier.push(rules.last()).map_values(|r: RuleView| entry_of(r))
                =~= earlier.map_values(|r: RuleView| entry_of(r)).push(entry_of(rules.last())));
        }
    }
}

/// Evaluation is a function of the document and the context: evaluating the same inputs
/// twice gives the same score and the same achievements, which are those of the rules
/// whose conditions hold, in document order.
pub proof fn lemma_evaluation_is_stable(
    doc: DocumentView,
    ctx: ContextView,
    first: ResultView,
    second: ResultView,
)
    requires
        first == evaluation_of(doc, ctx),
        second == evaluation_of(doc, ctx),
    ensures
        first == second,
        first.achievements == rules_that_hold(
            doc.achievements,
            ctx,
            total_transactions(ctx),
        ).map_values(|r: RuleView| entry_of(r)),
{
    lemma_matched_is_filter(doc.achievements, ctx, total_transactions(ctx));
}

} // verus!
