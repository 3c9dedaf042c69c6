use passport_nft_agent::json::{Json, JsonNumber};
use passport_nft_agent::lookup::{
    find_passport_by_owner, find_passport_by_token, placeholder_passport, quick_score_chain,
};
use passport_nft_agent::oracle::{chains_to_query, plan_passport, SkipReason};
use passport_nft_agent::passport::{PassportInfo, PassportToken, TokenIdError};

const CHAIN: &str = "E476187F6DDFEB9D588C7B45D3DF334D5501D6499B3F9AD5595CAE86CCE16A65";
const OWNER: &str = "0x4E8BE7F03F6ACE3C0B0DF8D2BD1A2B7D1C4E2A4F6D8E0F2A4C6E8F0A2C4E6F8A";

fn byte(n: u64) -> Json {
    Json::Number(JsonNumber::Unsigned(n))
}

fn token(id: Json) -> PassportToken {
    PassportToken { id }
}

fn info(owner: &str, chain: &str, id: Json) -> PassportInfo {
    PassportInfo {
        token_id: token(id),
        owner: owner.to_string(),
        owner_chain: chain.to_string(),
        achievements: None,
        score: None,
    }
}

#[test]
fn token_id_forms() {
    assert_eq!(token(Json::Null).as_bytes().unwrap(), None);
    assert_eq!(token(Json::Array(vec![byte(1), byte(255)])).as_bytes().unwrap(), Some(vec![1, 255]));
    assert_eq!(token(Json::Text(String::new())).as_bytes().unwrap(), None);
    assert_eq!(token(Json::Text("0x0a0B".to_string())).as_bytes().unwrap(), Some(vec![10, 11]));
    assert_eq!(token(Json::Text("ff00".to_string())).as_bytes().unwrap(), Some(vec![255, 0]));
    assert_eq!(token(Json::Text("0x".to_string())).as_bytes().unwrap(), Some(vec![]));
}

#[test]
fn token_id_errors() {
    assert_eq!(token(Json::Array(vec![byte(256)])).as_bytes().unwrap_err(), TokenIdError::InvalidByte);
    assert_eq!(
        token(Json::Array(vec![Json::Text("1".to_string())])).as_bytes().unwrap_err(),
        TokenIdError::InvalidByte
    );
    assert_eq!(token(Json::Text("0xabc".to_string())).as_bytes().unwrap_err(), TokenIdError::InvalidHex);
    assert_eq!(token(Json::Text("zz".to_string())).as_bytes().unwrap_err(), TokenIdError::InvalidHex);
    assert_eq!(token(Json::Bool(true)).as_bytes().unwrap_err(), TokenIdError::UnexpectedForm);
}

#[test]
fn passport_id_text() {
    let p = info(OWNER, CHAIN, Json::Text("0xDEAD".to_string()));
    assert_eq!(p.passport_id(), "dead");
    let q = info(OWNER, CHAIN, Json::Bool(false));
    assert_eq!(q.passport_id(), "unknown");
}

#[test]
fn plan_canonicalizes_identifiers() {
    let p = info(OWNER, CHAIN, Json::Array(vec![byte(7)]));
    let extra = vec!["not a chain".to_string(), CHAIN.to_lowercase()];
    let plan = plan_passport(&p, &extra).unwrap();
    assert_eq!(plan.owner, OWNER.to_lowercase());
    assert_eq!(plan.home_chain, CHAIN.to_lowercase());
    assert_eq!(plan.chains, vec![CHAIN.to_lowercase(), CHAIN.to_lowercase()]);
    assert_eq!(plan.token_id, vec![7]);
}

#[test]
fn plan_skips_bad_records() {
    let bad_owner = info("alice", CHAIN, Json::Array(vec![byte(7)]));
    assert_eq!(plan_passport(&bad_owner, &vec![]).unwrap_err(), SkipReason::InvalidOwner);
    let bad_chain = info(OWNER, "abc", Json::Array(vec![byte(7)]));
    assert_eq!(plan_passport(&bad_chain, &vec![]).unwrap_err(), SkipReason::InvalidChain);
    let empty = info(OWNER, CHAIN, Json::Null);
    assert_eq!(plan_passport(&empty, &vec![]).unwrap_err(), SkipReason::MissingTokenId);
    let broken = info(OWNER, CHAIN, Json::Text("xyz".to_string()));
    assert_eq!(plan_passport(&broken, &vec![]).unwrap_err(), SkipReason::InvalidTokenId);
    let short_owner = info("0x0A", CHAIN, Json::Array(vec![byte(7)]));
    assert_eq!(plan_passport(&short_owner, &vec![]).unwrap().owner, "0x0a");
}

#[test]
fn chains_default_to_home_chain() {
    let home = "home".to_string();
    assert_eq!(chains_to_query(&home, &vec![]), vec!["home".to_string()]);
}

#[test]
fn owner_lookup_ignores_case() {
    let passports = vec![
        info("0xaaaa", CHAIN, Json::Null),
        info("0xABCD", CHAIN, Json::Null),
        info("0xabcd", CHAIN, Json::Null),
    ];
    assert_eq!(find_passport_by_owner(&passports, "0xAbCd"), Some(1));
    assert_eq!(find_passport_by_owner(&passports, "0xbbbb"), None);
}

#[test]
fn token_lookup_compares_bytes() {
    let passports = vec![
        info(OWNER, CHAIN, Json::Text("zz".to_string())),
        info(OWNER, CHAIN, Json::Array(vec![byte(1), byte(2)])),
        info(OWNER, CHAIN, Json::Text("0x0102".to_string())),
    ];
    assert_eq!(find_passport_by_token(&passports, &[1, 2]), Some(1));
    assert_eq!(find_passport_by_token(&passports, &[1]), None);
}

#[test]
fn quick_score_chain_choice() {
    let operation = CHAIN.to_string();
    assert_eq!(quick_score_chain(None, &operation), Some(CHAIN.to_lowercase()));
    let p = info(OWNER, "bad", Json::Null);
    assert_eq!(quick_score_chain(Some(&p), &operation), None);
}

#[test]
fn placeholder_has_zero_token() {
    let p = placeholder_passport("0x01".to_string(), "c".to_string());
    assert_eq!(p.token_id_bytes().unwrap(), Some(vec![0u8; 16]));
    assert_eq!(p.score, Some(0));
    assert_eq!(p.achievements, Some(vec![]));
    assert_eq!(p.passport_id(), "00000000000000000000000000000000");
}
