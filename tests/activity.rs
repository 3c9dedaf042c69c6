use passport_nft_agent::activity::{ActivityKind, OwnerActivityEvent};
use passport_nft_agent::collector::{
    gather_chain_activity, normalize_operations, OperationContent, OperationEntry,
};
use passport_nft_agent::json::{Json, JsonNumber};
use passport_nft_agent::passport::{PassportInfo, PassportToken};
use passport_nft_agent::scoring::ObservationContext;

const DAY_MICROS: u64 = 86_400 * 1_000_000;

fn event(kind: ActivityKind, timestamp: Option<u64>) -> OwnerActivityEvent {
    OwnerActivityEvent {
        owner: "0x01".to_string(),
        chain_id: "chain".to_string(),
        height: 1,
        operation_index: 0,
        timestamp,
        kind,
    }
}

fn transfer(timestamp: Option<u64>) -> OwnerActivityEvent {
    event(ActivityKind::SystemTransfer { amount: 5, recipient: "0x02".to_string() }, timestamp)
}

fn call(app: &str, timestamp: Option<u64>) -> OwnerActivityEvent {
    event(ActivityKind::UserOperation { application_id: app.to_string(), payload: vec![1, 2] }, timestamp)
}

fn creation(module: &str, timestamp: Option<u64>) -> OwnerActivityEvent {
    event(ActivityKind::CreateApplication { module_id: module.to_string() }, timestamp)
}

fn passport(id: Json) -> PassportInfo {
    PassportInfo {
        token_id: PassportToken { id },
        owner: "0x01".to_string(),
        owner_chain: "chain".to_string(),
        achievements: None,
        score: None,
    }
}

fn count_of(ctx: &ObservationContext, key: &str) -> Option<u64> {
    ctx.actions.iter().find(|a| a.action_type == key).map(|a| a.count)
}

#[test]
fn dual_category_events_count_twice() {
    let events = vec![transfer(None), call("app1", None), call("app1", None), creation("m", None)];
    let ctx = ObservationContext::from_passport_at(passport(Json::Null), events, 0);
    assert_eq!(count_of(&ctx, "system_transfer"), Some(1));
    assert_eq!(count_of(&ctx, "user_operation"), Some(2));
    assert_eq!(count_of(&ctx, "user_operation:app1"), Some(2));
    assert_eq!(count_of(&ctx, "create_application"), Some(1));
    assert_eq!(count_of(&ctx, "create_application:m"), Some(1));
    assert_eq!(ctx.actions.len(), 5);
    let sum: u64 = ctx.actions.iter().map(|a| a.count).sum();
    assert_eq!(ctx.aggregates.total_actions, sum);
    assert_eq!(ctx.aggregates.total_actions, 7);
}

#[test]
fn unknown_record_id_without_token() {
    let ctx = ObservationContext::from_passport_at(passport(Json::Null), vec![], 0);
    assert_eq!(ctx.passport_id, "unknown");
    assert_eq!(ctx.owner, "0x01");
    assert!(ctx.actions.is_empty());
    assert_eq!(ctx.aggregates.total_actions, 0);
    assert_eq!(ctx.aggregates.unique_active_days, 0);
    assert_eq!(ctx.aggregates.wallet_age_days, 0);
}

#[test]
fn record_id_is_hex_of_token_bytes() {
    let id = Json::Array(vec![
        Json::Number(JsonNumber::Unsigned(0)),
        Json::Number(JsonNumber::Unsigned(171)),
        Json::Number(JsonNumber::Unsigned(16)),
    ]);
    let ctx = ObservationContext::from_passport_at(passport(id), vec![], 0);
    assert_eq!(ctx.passport_id, "00ab10");
}

#[test]
fn active_days_and_wallet_age() {
    let events = vec![
        transfer(Some(10 * DAY_MICROS + 5)),
        transfer(Some(10 * DAY_MICROS + 999)),
        transfer(Some(12 * DAY_MICROS)),
        transfer(None),
        transfer(Some(3 * DAY_MICROS + 1)),
    ];
    let now = 43 * DAY_MICROS;
    let ctx = ObservationContext::from_passport_at(passport(Json::Null), events, now);
    assert_eq!(ctx.aggregates.unique_active_days, 3);
    assert_eq!(ctx.aggregates.wallet_age_days, 39);
}

#[test]
fn wallet_age_is_zero_when_clock_is_behind() {
    let events = vec![transfer(Some(5 * DAY_MICROS))];
    let ctx = ObservationContext::from_passport_at(passport(Json::Null), events, DAY_MICROS);
    assert_eq!(ctx.aggregates.wallet_age_days, 0);
}

#[test]
fn last_seen_is_the_last_processed_timestamp() {
    let events = vec![transfer(Some(2 * DAY_MICROS)), transfer(Some(0))];
    let ctx = ObservationContext::from_passport_at(passport(Json::Null), events, 0);
    let action = &ctx.actions[0];
    assert_eq!(action.last_seen.as_deref(), Some("1970-01-01 00:00:00"));
    let events = vec![transfer(Some(0)), transfer(None)];
    let ctx = ObservationContext::from_passport_at(passport(Json::Null), events, 0);
    assert_eq!(ctx.actions[0].last_seen.as_deref(), Some("1970-01-01 00:00:00"));
    let events = vec![transfer(None)];
    let ctx = ObservationContext::from_passport_at(passport(Json::Null), events, 0);
    assert_eq!(ctx.actions[0].last_seen, None);
}

#[test]
fn timestamp_text_is_a_date() {
    let events = vec![call("a", Some(2 * DAY_MICROS + 3_600_000_000))];
    let ctx = ObservationContext::from_passport_at(passport(Json::Null), events, 0);
    for action in &ctx.actions {
        assert_eq!(action.last_seen.as_deref(), Some("1970-01-03 01:00:00"));
    }
}

#[test]
fn constructors_leave_timestamp_empty() {
    let e = OwnerActivityEvent::user_operation(
        "0x01".to_string(),
        "c".to_string(),
        7,
        2,
        "app".to_string(),
        vec![9],
    );
    assert_eq!(e.height, 7);
    assert_eq!(e.operation_index, 2);
    assert!(e.timestamp.is_none());
    assert!(matches!(e.kind, ActivityKind::UserOperation { .. }));
    let t = OwnerActivityEvent::system_transfer("o".to_string(), "c".to_string(), 1, 0, 3, "r".to_string());
    assert!(matches!(t.kind, ActivityKind::SystemTransfer { amount: 3, .. }));
    let c = OwnerActivityEvent::create_application("o".to_string(), "c".to_string(), 1, 0, "m".to_string());
    assert!(matches!(c.kind, ActivityKind::CreateApplication { .. }));
}

#[test]
fn failing_chain_contributes_nothing() {
    let outcomes: Vec<Result<Vec<OwnerActivityEvent>, String>> = vec![
        Ok(vec![transfer(None)]),
        Err("unreachable".to_string()),
        Ok(vec![call("a", None), creation("m", None)]),
    ];
    let events = gather_chain_activity(outcomes);
    assert_eq!(events.len(), 3);
    assert!(matches!(events[0].kind, ActivityKind::SystemTransfer { .. }));
    assert!(matches!(events[1].kind, ActivityKind::UserOperation { .. }));
    assert!(matches!(events[2].kind, ActivityKind::CreateApplication { .. }));
}

#[test]
fn all_chains_failing_gives_no_events() {
    let outcomes: Vec<Result<Vec<OwnerActivityEvent>, String>> =
        vec![Err("a".to_string()), Err("b".to_string())];
    assert!(gather_chain_activity(outcomes).is_empty());
}

#[test]
fn normalizer_keeps_owner_operations() {
    let owner = "0xaa".to_string();
    let entry = |index: u32, content: OperationContent| OperationEntry {
        chain_id: "c1".to_string(),
        height: 4,
        index,
        content,
    };
    let entries = vec![
        entry(0, OperationContent::Transfer { owner: "0xaa".to_string(), amount: 1, recipient: "0xbb".to_string() }),
        entry(1, OperationContent::Transfer { owner: "0xcc".to_string(), amount: 1, recipient: "0xaa".to_string() }),
        entry(2, OperationContent::OtherSystem),
        entry(3, OperationContent::User { application_id: "app".to_string(), bytes: vec![7] }),
        entry(4, OperationContent::CreateApplication { module_id: "mod".to_string() }),
    ];
    let events = normalize_operations(entries, &owner);
    assert_eq!(events.len(), 3);
    let indexes: Vec<u64> = events.iter().map(|e| e.operation_index).collect();
    assert_eq!(indexes, vec![0, 3, 4]);
    assert!(events.iter().all(|e| e.owner == "0xaa" && e.chain_id == "c1" && e.height == 4));
    assert!(events.iter().all(|e| e.timestamp.is_none()));
}
