use passport_nft_agent::json::{Json, JsonNumber};
use passport_nft_agent::rules::{
    compute_base_score, evaluate_rules, validate_rules, Predicate, ScoringError,
};
use passport_nft_agent::scoring::{ActionEvent, Aggregates, ObservationContext};

fn text(s: &str) -> Json {
    Json::Text(s.to_string())
}

fn num(n: u64) -> Json {
    Json::Number(JsonNumber::Unsigned(n))
}

fn obj(members: Vec<(&str, Json)>) -> Json {
    Json::Object(members.into_iter().map(|(k, v)| (k.to_string(), v)).collect())
}

fn whale_document(ratio: u64) -> Json {
    obj(vec![
        (
            "scoring_rules",
            obj(vec![
                ("transactions_per_point", num(ratio)),
                ("daily_activity_points", num(10)),
                ("wallet_age_points_per_day", num(1)),
            ]),
        ),
        (
            "achievements",
            Json::Array(vec![obj(vec![
                ("code", text("WHALE")),
                ("explanation", text("Ten or more transactions")),
                ("points", num(20)),
                ("condition", obj(vec![("total_transactions", obj(vec![("min_count", num(10))]))])),
            ])]),
        ),
    ])
}

fn context(actions: Vec<(&str, u64)>, days: u64, age: u64) -> ObservationContext {
    let actions: Vec<ActionEvent> = actions
        .into_iter()
        .map(|(k, c)| ActionEvent { action_type: k.to_string(), count: c, last_seen: None })
        .collect();
    let total: u64 = actions.iter().map(|a| a.count).sum();
    ObservationContext {
        passport_id: "00".to_string(),
        owner: "0x01".to_string(),
        actions,
        aggregates: Aggregates { total_actions: total, unique_active_days: days, wallet_age_days: age },
    }
}

#[test]
fn whale_scenario_scores_ninety_one() {
    let ctx = context(vec![("system_transfer", 12)], 3, 40);
    let result = evaluate_rules(&whale_document(10), &ctx).unwrap();
    assert_eq!(result.score, 91);
    let codes: Vec<&str> = result.achievements.iter().map(|a| a.code.as_str()).collect();
    assert_eq!(codes, vec!["WHALE"]);
    assert_eq!(result.achievements[0].points, Some(20));
}

#[test]
fn coarser_ratio_drops_base_score() {
    let ctx = context(vec![("system_transfer", 12)], 3, 40);
    let result = evaluate_rules(&whale_document(100), &ctx).unwrap();
    assert_eq!(result.score, 90);
    assert_eq!(result.achievements.len(), 1);
}

#[test]
fn base_score_truncates_at_boundaries() {
    assert_eq!(compute_base_score(9, 10), 0);
    assert_eq!(compute_base_score(10, 10), 1);
    assert_eq!(compute_base_score(19, 10), 1);
    assert_eq!(compute_base_score(0, 7), 0);
    assert_eq!(compute_base_score(u64::MAX, 1), u64::MAX);
}

#[test]
fn defaults_apply_without_scoring_rules() {
    let doc = obj(vec![("achievements", Json::Array(vec![]))]);
    let ctx = context(vec![("system_transfer", 25)], 2, 5);
    let result = evaluate_rules(&doc, &ctx).unwrap();
    // 25 / 10 + 2 * 10 + 5 * 1
    assert_eq!(result.score, 27);
    assert!(result.achievements.is_empty());
}

#[test]
fn evaluating_twice_gives_the_same_list() {
    let doc = obj(vec![(
        "achievements",
        Json::Array(vec![
            obj(vec![("code", text("B")), ("explanation", text("second"))]),
            obj(vec![
                ("code", text("A")),
                ("explanation", text("first")),
                ("condition", obj(vec![("app_creation", obj(vec![]))])),
            ]),
            obj(vec![("code", text("C")), ("explanation", text("third")), ("points", num(5))]),
        ]),
    )]);
    let ctx = context(vec![("create_application", 1)], 0, 0);
    let first = evaluate_rules(&doc, &ctx).unwrap();
    let second = evaluate_rules(&doc, &ctx).unwrap();
    let a: Vec<&str> = first.achievements.iter().map(|e| e.code.as_str()).collect();
    let b: Vec<&str> = second.achievements.iter().map(|e| e.code.as_str()).collect();
    assert_eq!(a, vec!["B", "A", "C"]);
    assert_eq!(a, b);
    assert_eq!(first.score, second.score);
    assert_eq!(first.score, 5);
}

#[test]
fn action_count_conditions_use_min_count() {
    let rule = |min: u64| {
        obj(vec![(
            "achievements",
            Json::Array(vec![obj(vec![
                ("code", text("USER")),
                ("explanation", text("calls")),
                ("condition", obj(vec![("user_operation", obj(vec![("min_count", num(min))]))])),
            ])]),
        )])
    };
    let ctx = context(vec![("user_operation:app", 3), ("user_operation", 3)], 0, 0);
    assert_eq!(evaluate_rules(&rule(3), &ctx).unwrap().achievements.len(), 1);
    assert_eq!(evaluate_rules(&rule(4), &ctx).unwrap().achievements.len(), 0);
    let empty = context(vec![], 0, 0);
    assert_eq!(evaluate_rules(&rule(0), &empty).unwrap().achievements.len(), 0);
}

#[test]
fn day_and_age_conditions_and_unknown_keys() {
    let doc = obj(vec![(
        "achievements",
        Json::Array(vec![
            obj(vec![
                ("code", text("REGULAR")),
                ("explanation", text("active")),
                ("condition", obj(vec![("unique_active_days", obj(vec![("min", num(3))]))])),
            ]),
            obj(vec![
                ("code", text("VETERAN")),
                ("explanation", text("old")),
                ("condition", obj(vec![("wallet_age_days", obj(vec![("min", num(30))]))])),
            ]),
            obj(vec![
                ("code", text("FUTURE")),
                ("explanation", text("unknown key")),
                ("condition", obj(vec![("nft_interaction", obj(vec![]))])),
            ]),
        ]),
    )]);
    let ctx = context(vec![], 3, 29);
    let result = evaluate_rules(&doc, &ctx).unwrap();
    let codes: Vec<&str> = result.achievements.iter().map(|e| e.code.as_str()).collect();
    assert_eq!(codes, vec!["REGULAR", "FUTURE"]);
}

#[test]
fn schema_violations_are_rejected() {
    let ctx = context(vec![], 0, 0);
    let missing = obj(vec![]);
    assert_eq!(evaluate_rules(&missing, &ctx).unwrap_err(), ScoringError::Schema);
    let not_object = Json::Array(vec![]);
    assert_eq!(evaluate_rules(&not_object, &ctx).unwrap_err(), ScoringError::Schema);
    let no_code = obj(vec![("achievements", Json::Array(vec![obj(vec![("explanation", text("x"))])]))]);
    assert_eq!(evaluate_rules(&no_code, &ctx).unwrap_err(), ScoringError::Schema);
    let negative_points = obj(vec![(
        "achievements",
        Json::Array(vec![obj(vec![
            ("code", text("X")),
            ("explanation", text("x")),
            ("points", Json::Number(JsonNumber::Negative(-1))),
        ])]),
    )]);
    assert_eq!(evaluate_rules(&negative_points, &ctx).unwrap_err(), ScoringError::Schema);
    let fractional_ratio = obj(vec![
        (
            "scoring_rules",
            obj(vec![("transactions_per_point", Json::Number(JsonNumber::Real { integral: false, negative: false }))]),
        ),
        ("achievements", Json::Array(vec![])),
    ]);
    assert_eq!(evaluate_rules(&fractional_ratio, &ctx).unwrap_err(), ScoringError::Schema);
    let text_condition = obj(vec![(
        "achievements",
        Json::Array(vec![obj(vec![
            ("code", text("X")),
            ("explanation", text("x")),
            ("condition", text("always")),
        ])]),
    )]);
    assert_eq!(evaluate_rules(&text_condition, &ctx).unwrap_err(), ScoringError::Schema);
}

#[test]
fn zero_ratio_is_rejected() {
    let ctx = context(vec![("system_transfer", 12)], 3, 40);
    assert_eq!(evaluate_rules(&whale_document(0), &ctx).unwrap_err(), ScoringError::ZeroRatio);
}

#[test]
fn validated_document_keeps_rules_in_order() {
    let doc = whale_document(10);
    let rules = validate_rules(&doc).unwrap();
    assert_eq!(rules.scoring.transactions_per_point, 10);
    assert_eq!(rules.achievements.len(), 1);
    let rule = &rules.achievements[0];
    assert_eq!(rule.code, "WHALE");
    match &rule.condition.as_ref().unwrap()[0] {
        Predicate::TotalTransactions { min_count } => assert_eq!(*min_count, Some(10)),
        other => panic!("unexpected predicate {:?}", other),
    }
}

#[test]
fn score_saturates_instead_of_overflowing() {
    let doc = obj(vec![
        ("scoring_rules", obj(vec![("daily_activity_points", num(u64::MAX))])),
        ("achievements", Json::Array(vec![])),
    ]);
    let ctx = context(vec![], 2, 0);
    assert_eq!(evaluate_rules(&doc, &ctx).unwrap().score, u64::MAX);
}

#[test]
fn member_lookup_takes_the_first_match() {
    let v = obj(vec![("a", num(1)), ("b", num(2)), ("a", num(3))]);
    assert_eq!(v.get("a").and_then(|x| x.as_u64()), Some(1));
    assert_eq!(v.get("b").and_then(|x| x.as_u64()), Some(2));
    assert!(v.get("c").is_none());
    assert!(num(4).get("a").is_none());
}

#[test]
fn whole_real_points_pass_but_count_zero() {
    let doc = obj(vec![(
        "achievements",
        Json::Array(vec![obj(vec![
            ("code", text("R")),
            ("explanation", text("real")),
            ("points", Json::Number(JsonNumber::Real { integral: true, negative: false })),
        ])]),
    )]);
    let ctx = context(vec![], 0, 0);
    let result = evaluate_rules(&doc, &ctx).unwrap();
    assert_eq!(result.achievements.len(), 1);
    assert_eq!(result.achievements[0].points, None);
    assert_eq!(result.score, 0);
}
