use passport_nft_agent::delta::{achievement_label, compute_delta, needs_update, update_for};
use passport_nft_agent::scoring::{AchievementEntry, AchievementResult};

fn entry(code: &str, explanation: &str) -> AchievementEntry {
    AchievementEntry { code: code.to_string(), points: None, explanation: explanation.to_string() }
}

fn result(score: u64, entries: Vec<AchievementEntry>) -> AchievementResult {
    AchievementResult { score, achievements: entries }
}

#[test]
fn label_joins_code_and_explanation() {
    assert_eq!(achievement_label(&entry("WHALE", "big")), "WHALE: big");
}

#[test]
fn unchanged_result_writes_nothing() {
    let prior = vec!["WHALE: big".to_string(), "OLD: kept".to_string()];
    let fresh = result(50, vec![entry("WHALE", "big")]);
    let delta = compute_delta(&prior, 50, &fresh);
    assert!(delta.new_achievements.is_empty());
    assert_eq!(delta.score_increase, 0);
    assert!(!needs_update(&delta));
    assert!(update_for(vec![1], &Some(prior), Some(50), &fresh).is_none());
}

#[test]
fn score_increase_is_never_negative() {
    let fresh = result(40, vec![]);
    assert_eq!(compute_delta(&vec![], 50, &fresh).score_increase, 0);
    assert_eq!(compute_delta(&vec![], 30, &fresh).score_increase, 10);
    assert_eq!(compute_delta(&vec![], 40, &fresh).score_increase, 0);
}

#[test]
fn only_new_achievements_in_fresh_order() {
    let prior = vec!["B: two".to_string()];
    let fresh = result(5, vec![entry("C", "three"), entry("B", "two"), entry("A", "one")]);
    let delta = compute_delta(&prior, 5, &fresh);
    assert_eq!(delta.new_achievements, vec!["C: three".to_string(), "A: one".to_string()]);
}

#[test]
fn update_uses_defaults_for_missing_record_fields() {
    let fresh = result(12, vec![entry("X", "y")]);
    let args = update_for(vec![9, 8], &None, None, &fresh).unwrap();
    assert_eq!(args.token_id.id, vec![9, 8]);
    assert_eq!(args.new_achievements, vec!["X: y".to_string()]);
    assert_eq!(args.score_increase, 12);
}
