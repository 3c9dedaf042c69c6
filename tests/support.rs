use passport_nft_agent::config::{
    default_indexer_endpoint, default_openai_model, default_poll_interval, default_rules_path,
    default_storage_path, AppConfig, OpenAiConfig,
};
use passport_nft_agent::contract::PassportError;
use passport_nft_agent::generative::{
    generate_endpoint, generative_target, next_scoring_step, result_from_reply, scoring_prompt,
    GenerativeAchievement, ScoringStep,
};
use passport_nft_agent::scoring::AchievementResult;
use passport_nft_agent::mint::{content_hash_text, mint_args_for};

fn config(openai: Option<OpenAiConfig>) -> AppConfig {
    AppConfig {
        linera_rpc_endpoint: "http://rpc".to_string(),
        rpc_endpoint: None,
        graphql_endpoint: "http://graphql".to_string(),
        indexer_endpoint: default_indexer_endpoint(),
        wallet_path: "wallet.json".to_string(),
        storage_path: default_storage_path(),
        application_id: "app".to_string(),
        operation_chain_id: "chain".to_string(),
        poll_interval_secs: default_poll_interval(),
        rules_path: default_rules_path(),
        openai,
        cross_chain_ids: vec![],
    }
}

#[test]
fn configuration_defaults() {
    assert_eq!(default_poll_interval(), 30);
    assert_eq!(default_rules_path(), "config/achievements.json");
    assert_eq!(default_storage_path(), "storage/passport-agent");
    assert_eq!(default_openai_model(), "gpt-4.1-mini");
    assert_eq!(default_indexer_endpoint(), "http://127.0.0.1:8000/operations");
}

#[test]
fn error_codes_and_messages() {
    assert_eq!(PassportError::PassportAlreadyExists.code(), "PASSPORT_EXISTS");
    assert_eq!(PassportError::ContentHashTooLong.code(), "CONTENT_HASH_TOO_LONG");
    assert_eq!(PassportError::PassportNotFound.code(), "PASSPORT_NOT_FOUND");
    assert_eq!(PassportError::ScoreOverflow.message(), "score overflow");
    assert_eq!(PassportError::AchievementTooLong.message(), "achievement text exceeds 256 chars");
}

#[test]
fn endpoint_strips_version_suffixes() {
    assert_eq!(generate_endpoint("http://localhost:11434/v1"), "http://localhost:11434/api/generate");
    assert_eq!(generate_endpoint("http://host/v1/v1"), "http://host/api/generate");
    assert_eq!(generate_endpoint("http://host"), "http://host/api/generate");
}

#[test]
fn generative_path_needs_base_url() {
    assert!(generative_target(&config(None)).is_none());
    let without_url = OpenAiConfig { api_key: "k".to_string(), model: "m".to_string(), base_url: None };
    assert!(generative_target(&config(Some(without_url))).is_none());
    let with_url = OpenAiConfig {
        api_key: "k".to_string(),
        model: "llama3".to_string(),
        base_url: Some("http://ollama:11434/v1".to_string()),
    };
    let target = generative_target(&config(Some(with_url))).unwrap();
    assert_eq!(target.url, "http://ollama:11434/api/generate");
    assert_eq!(target.model, "llama3");
}

#[test]
fn prompt_embeds_totals_and_actions() {
    let prompt = scoring_prompt(120, "[]");
    assert!(prompt.starts_with("Analyze blockchain wallet activity."));
    assert!(prompt.contains("Total transactions: 120\nActions: []\n\nIMPORTANT:"));
    assert!(prompt.ends_with("\"reasoning\": \"Your analysis\"\n}"));
}

#[test]
fn reply_becomes_result_with_points() {
    let reply = vec![GenerativeAchievement { code: "MILESTONE_10".to_string(), explanation: "ten".to_string(), points: 10 }];
    let result = result_from_reply(21, &reply);
    assert_eq!(result.score, 21);
    assert_eq!(result.achievements.len(), 1);
    assert_eq!(result.achievements[0].code, "MILESTONE_10");
    assert_eq!(result.achievements[0].points, Some(10));
}

#[test]
fn mint_parameters() {
    assert_eq!(content_hash_text(&[0xde, 0xad, 0x01]), "0xdead01");
    let args = mint_args_for(vec![5; 16], 1_700_000_000, &[0xff]);
    assert_eq!(args.token_id.id, vec![5; 16]);
    assert_eq!(args.metadata_uri, "ipfs://QmPassportMetadata1700000000");
    assert_eq!(args.image_uri, "ipfs://QmPassportImage1700000000");
    assert_eq!(args.content_hash, "0xff");
}

#[test]
fn scoring_steps_fall_back_per_context() {
    let with_url = OpenAiConfig {
        api_key: "k".to_string(),
        model: "m".to_string(),
        base_url: Some("http://ollama/v1".to_string()),
    };
    let configured = config(Some(with_url));
    match next_scoring_step::<String>(&configured, None) {
        ScoringStep::AskModel(target) => assert_eq!(target.url, "http://ollama/api/generate"),
        other => panic!("unexpected step {:?}", other),
    }
    let answered = Ok::<AchievementResult, String>(AchievementResult { score: 7, achievements: vec![] });
    match next_scoring_step(&configured, Some(answered)) {
        ScoringStep::Done(result) => assert_eq!(result.score, 7),
        other => panic!("unexpected step {:?}", other),
    }
    let failed = Err::<AchievementResult, String>("timeout".to_string());
    assert!(matches!(next_scoring_step(&configured, Some(failed)), ScoringStep::ApplyRules));
    assert!(matches!(next_scoring_step::<String>(&config(None), None), ScoringStep::ApplyRules));
    // A fresh context asks the model again.
    assert!(matches!(next_scoring_step::<String>(&configured, None), ScoringStep::AskModel(_)));
}
