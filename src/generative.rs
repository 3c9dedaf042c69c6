//! The generative-model path of scoring: the request it sends, where it sends it, and
//! how its reply becomes a scoring result.

use vstd::prelude::*;
use crate::config::AppConfig;
use crate::encoding::{decimal_of, decimal_text};
use crate::scoring::{AchievementEntry, AchievementResult, EntryView};

verus! {

/// The request text before the total transaction count.
pub const PROMPT_HEAD: &'static str = "Analyze blockchain wallet activity. Follow these EXACT scoring rules:

RULE 1: Base Score (mandatory)
- Formula: total_transactions / 10
- Example: 100 tx = 10 points, 500 tx = 50 points

RULE 2: One-time Achievements (award once only):
- CONWAY_PARTICIPANT: +100 points (if any user_operation exists)
- APP_CREATOR: +100 points (if CreateApplication detected)
- NFT_INTERACTION: +50 points (if NFT contract interaction detected)

RULE 3: Transaction Milestones (one-time each):
- MILESTONE_10: +10 points (if total_tx >= 10)
- MILESTONE_50: +25 points (if total_tx >= 50)
- MILESTONE_100: +50 points (if total_tx >= 100)
- MILESTONE_500: +100 points (if total_tx >= 500)

USER DATA:
Total transactions: ";

/// The request text between the total transaction count and the category summaries.
pub const PROMPT_MIDDLE: &'static str = "
Actions: ";

/// The request text after the category summaries.
pub const PROMPT_TAIL: &'static str = "

IMPORTANT:
1. Base score MUST be exactly: total_tx / 10
2. Each achievement awarded ONCE only
3. Return ONLY JSON, no markdown
4. Explain your reasoning

Return this exact JSON structure:
{
  \"score\": <base_score + achievement_points>,
  \"achievements\": [
    {\"code\": \"ACHIEVEMENT_CODE\", \"explanation\": \"why awarded\", \"points\": <number>}
  ],
  \"reasoning\": \"Your analysis\"
}";

/// The scoring request for an owner with `total_transactions` transactions whose category
/// summaries are given as JSON text.
pub fn scoring_prompt(total_transactions: u64, actions_json: &str) -> (r: String)
    ensures
        r@ == PROMPT_HEAD@ + decimal_of(total_transactions as nat) + PROMPT_MIDDLE@ + actions_json@
            + PROMPT_TAIL@,
{
    let mut prompt = PROMPT_HEAD.to_string();
    let total = decimal_text(total_transactions);
    prompt.append(total.as_str());
    prompt.append(PROMPT_MIDDLE);
    prompt.append(actions_json);
    prompt.append(PROMPT_TAIL);
    prompt
}

/// Whether text ends with `/v1`.
pub open spec fn ends_with_v1(s: Seq<char>) -> bool {
    s.len() >= 3 && s[s.len() - 3] == '/' && s[s.len() - 2] == 'v' && s[s.len() - 1] == '1'
}

/// Text with every trailing `/v1` removed.
pub open spec fn without_v1(s: Seq<char>) -> Seq<char>
    decreases s.len(),
{
    if ends_with_v1(s) {
        without_v1(s.subrange(0, s.len() - 3))
    } else {
        s
    }
}

/// The generation endpoint of a model server: its base URL without trailing `/v1`, then
/// `/api/generate`.
pub fn generate_endpoint(base_url: &str) -> (r: String)
    ensures
        r@ == without_v1(base_url@) + "/api/generate"@,
{
    let mut end = base_url.unicode_len();
    proof {
        assert(base_url@.subrange(0, end as int) =~= base_url@);
    }
    while end >= 3 && base_url.get_char(end - 3) == '/' && base_url.get_char(end - 2) == 'v'
        && base_url.get_char(end - 1) == '1'
        invariant
            end <= base_url@.len(),
            without_v1(base_url@.subrange(0, end as int)) == without_v1(base_url@),
        decreases end,
    {
        proof {
            let s = base_url@.subrange(0, end as int);
            assert(s.subrange(0, s.len() - 3) =~= base_url@.subrange(0, end - 3));
        }
        end = end - 3;
    }
    let mut url = base_url.substring_char(0, end).to_string();
    url.append("/api/generate");
    url
}

/// Where and with which model the generative path runs.
#[derive(Clone, Debug)]
pub struct GenerativeTarget {
    pub url: String,
    pub model: String,
}

/// The generative path of a configuration: configured only with a model server base URL.
pub fn generative_target(config: &AppConfig) -> (r: Option<GenerativeTarget>)
    ensures
        r is Some <==> (config.openai matches Some(o) && o.base_url is Some),
        r matches Some(t) ==> {
            &&& t.url@ == without_v1(config.openai->Some_0.base_url->Some_0@) + "/api/generate"@
            &&& t.model == config.openai->Some_0.model
        },
{
    match &config.openai {
        Some(openai) => match &openai.base_url {
            Some(base) => Some(
                GenerativeTarget { url: generate_endpoint(base.as_str()), model: openai.model.clone() },
            ),
            None => None,
        },
        None => None,
    }
}

/// One achievement of a model's reply.
#[derive(Clone, Debug)]
pub struct GenerativeAchievement {
    pub code: String,
    pub explanation: String,
    pub points: u64,
}

/// The entry that a reply's achievement stands for.
pub open spec fn reply_entry(a: GenerativeAchievement) -> EntryView {
    EntryView { code: a.code@, points: Some(a.points), explanation: a.explanation@ }
}

/// The scoring result of a model's reply, with its score already rounded to an integer.
pub fn result_from_reply(score: u64, achievements: &Vec<GenerativeAchievement>) -> (r:
    AchievementResult)
    ensures
        r.score == score,
        r@.achievements == achievements@.map_values(|a: GenerativeAchievement| reply_entry(a)),
{
    let mut entries: Vec<AchievementEntry> = Vec::new();
    let mut i: usize = 0;
    while i < achievements.len()
        invariant
            0 <= i <= achievements.len(),
            entries.len() == i,
            entries@.map_values(|e: AchievementEntry| e@) == achievements@.take(
                i as int,
            ).map_values(|a: GenerativeAchievement| reply_entry(a)),
        decreases achievements.len() - i,
    {
        let a = &achievements[i];
        let ghost before = entries@;
        entries.push(
            AchievementEntry {
                code: a.code.clone(),
                points: Some(a.points),
                explanation: a.explanation.clone(),
            },
        );
        proof {
            let done = achievements@.take(i + 1).map_values(|a: GenerativeAchievement| reply_entry(a));
            assert forall|k: int| 0 <= k < i implies entries@[k]@ == done[k] by {
                assert(entries@[k] == before[k]);
                assert(before.map_values(|e: AchievementEntry| e@)[k] == achievements@.take(
                    i as int,
                ).map_values(|a: GenerativeAchievement| reply_entry(a))[k]);
            }
            assert(entries@.map_values(|e: AchievementEntry| e@) =~= done);
        }
        i += 1;
    }
    proof {
        assert(achievements@.take(i as int) =~= achievements@);
    }
    AchievementResult { score, achievements: entries }
}

/// What scoring one context does next.
#[derive(Debug)]
pub enum ScoringStep {
    /// Send the context to the model server.
    AskModel(GenerativeTarget),
    /// Score with the rule document.
    ApplyRules,
    /// Scoring is finished with this result.
    Done(AchievementResult),
}

/// The next step of scoring one context, given the model's outcome if it was asked: ask the
/// model when one is configured and it was not asked yet; take its result when it answered;
/// fall back to the rules when it failed or none is configured. The fallback holds for this
/// context only: each context starts again with the model.
pub fn next_scoring_step<E>(config: &AppConfig, model_outcome: Option<Result<AchievementResult, E>>) -> (r:
    ScoringStep)
    ensures
        match model_outcome {
            None => {
                &&& r is AskModel <==> (config.openai matches Some(o) && o.base_url is Some)
                &&& r is AskModel || r is ApplyRules
                &&& r matches ScoringStep::AskModel(t) ==> {
                    &&& t.url@ == without_v1(config.openai->Some_0.base_url->Some_0@)
                        + "/api/generate"@
                    &&& t.model == config.openai->Some_0.model
                }
            },
            Some(Ok(result)) => r == ScoringStep::Done(result),
            Some(Err(_)) => r is ApplyRules,
        },
{
    match model_outcome {
        None => match generative_target(config) {
            Some(target) => ScoringStep::AskModel(target),
            None => ScoringStep::ApplyRules,
        },
        Some(Ok(result)) => ScoringStep::Done(result),
        Some(Err(_)) => ScoringStep::ApplyRules,
    }
}

} // verus!
