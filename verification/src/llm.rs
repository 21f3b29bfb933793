//! Prompt text for the language-model stages of the trading loop: the parts
//! of the prompts that carry no market figures.

use vstd::prelude::*;
use vstd::string::StringExecFns;
use crate::text::{chars_to_string, decimal, u64_decimal};

verus! {

/// Builder for trading agent prompts.
pub struct PromptBuilder;

/// The learnings as a numbered list, one `{n}. {learning}` line each,
/// counting from one.
pub open spec fn numbered_learnings(ls: Seq<Seq<char>>) -> Seq<char>
    decreases ls.len(),
{
    if ls.len() == 0 {
        Seq::empty()
    } else {
        numbered_learnings(ls.drop_last()) + decimal(ls.len()) + ". "@ + ls.last() + "\n"@
    }
}

/// The past-learnings section of the orient prompt: nothing without
/// learnings, else a heading and the numbered list.
pub open spec fn past_learnings_text(ls: Seq<Seq<char>>) -> Seq<char> {
    if ls.len() == 0 {
        Seq::empty()
    } else {
        "\n## Past Learnings\n"@ + numbered_learnings(ls)
    }
}

impl PromptBuilder {
    /// The opening of the orient prompt, up to the market data.
    pub fn orient_preamble() -> (r: String)
        ensures
            r@ == "Analyze the current market conditions and classify the market regime.\n\n## Market Data\n"@,
    {
        String::from_str(
            "Analyze the current market conditions and classify the market regime.\n\n## Market Data\n",
        )
    }

    /// The past-learnings section of the orient prompt.
    pub fn learnings_section(learnings: &[String]) -> (r: String)
        ensures
            r@ == past_learnings_text(learnings@.map_values(|s: String| s@)),
    {
        let ghost ls = learnings@.map_values(|s: String| s@);
        if learnings.len() == 0 {
            return String::new();
        }
        let mut out = String::from_str("\n## Past Learnings\n");
        let mut i: usize = 0;
        while i < learnings.len()
            invariant
                i <= learnings@.len(),
                ls == learnings@.map_values(|s: String| s@),
                out@ == "\n## Past Learnings\n"@ + numbered_learnings(ls.take(i as int)),
            decreases learnings.len() - i,
        {
            proof {
                assert(ls.take(i + 1).drop_last() =~= ls.take(i as int));
                assert(ls.take(i + 1).last() == learnings@[i as int]@);
            }
            let n = chars_to_string(&u64_decimal((i + 1) as u64));
            out = out.concat(n.as_str()).concat(". ").concat(learnings[i].as_str()).concat("\n");
            i = i + 1;
        }
        assert(ls.take(learnings@.len() as int) =~= ls);
        out
    }

    /// The response format the orient prompt asks for.
    pub fn orient_response_format() -> (r: String)
        ensures
            r@ == "\n## Response Format\nRespond with JSON:\n{\n  \"regime\": \"TRENDING_UP|TRENDING_DOWN|RANGING|VOLATILE|CRISIS\",\n  \"confidence\": 0.0-1.0,\n  \"rationale\": \"string (max 200 words)\",\n  \"key_factors\": [\"list of key factors\"],\n  \"recommended_actions\": [\"list of recommended actions\"]\n}\n"@,
    {
        String::from_str(
            "\n## Response Format\nRespond with JSON:\n{\n  \"regime\": \"TRENDING_UP|TRENDING_DOWN|RANGING|VOLATILE|CRISIS\",\n  \"confidence\": 0.0-1.0,\n  \"rationale\": \"string (max 200 words)\",\n  \"key_factors\": [\"list of key factors\"],\n  \"recommended_actions\": [\"list of recommended actions\"]\n}\n",
        )
    }

    /// The response format the decide prompt asks for.
    pub fn decide_response_format() -> (r: String)
        ensures
            r@ == "\n## Response Format\nRespond with a JSON array of actions:\n[{\n  \"type\": \"create\",\n  \"executor_type\": \"position|order|grid\",\n  \"connector\": \"binance\",\n  \"pair\": {\"base\": \"BTC\", \"quote\": \"USDT\"},\n  \"side\": \"BUY\"|\"SELL\",\n  \"amount\": 0.0,\n  \"triple_barrier\": {\"take_profit\": 0.02, \"stop_loss\": 0.01, \"time_limit\": 3600}\n}]\n\nOr an empty array [] if no action is recommended.\n"@,
    {
        String::from_str(
            "\n## Response Format\nRespond with a JSON array of actions:\n[{\n  \"type\": \"create\",\n  \"executor_type\": \"position|order|grid\",\n  \"connector\": \"binance\",\n  \"pair\": {\"base\": \"BTC\", \"quote\": \"USDT\"},\n  \"side\": \"BUY\"|\"SELL\",\n  \"amount\": 0.0,\n  \"triple_barrier\": {\"take_profit\": 0.02, \"stop_loss\": 0.01, \"time_limit\": 3600}\n}]\n\nOr an empty array [] if no action is recommended.\n",
        )
    }
}

} // verus!
