//! The local language-model provider: chat-prompt layout, the canned replies
//! of its offline backend, and the word limit on completions.

use vstd::prelude::*;
use vstd::string::StringExecFns;
use crate::text::{
    chars_to_string, concat_chars, find, find_chars, is_whitespace, is_ws, join, str_chars,
};

verus! {

/// The text a chat prompt lays out for one message: the role in `<|…|>`
/// on its own line, then the content on its own line.
pub open spec fn chat_message_text(role: Seq<char>, content: Seq<char>) -> Seq<char> {
    "<|"@ + role + "|>\n"@ + content + "\n"@
}

/// The messages laid out one after another.
pub open spec fn chat_messages_text(ms: Seq<(Seq<char>, Seq<char>)>) -> Seq<char>
    decreases ms.len(),
{
    if ms.len() == 0 {
        Seq::empty()
    } else {
        chat_messages_text(ms.drop_last()) + chat_message_text(ms.last().0, ms.last().1)
    }
}

/// The marker that ends a chat prompt, where the assistant's turn begins.
pub open spec fn assistant_marker() -> Seq<char> {
    "<|assistant|>\n"@
}

/// Lays out (role, content) messages as a chat prompt for the model.
pub fn build_chat_prompt(messages: &Vec<(String, String)>) -> (r: String)
    ensures
        r@ == chat_messages_text(messages@.map_values(|m: (String, String)| (m.0@, m.1@)))
            + assistant_marker(),
{
    let ghost ms = messages@.map_values(|m: (String, String)| (m.0@, m.1@));
    let mut out = String::new();
    let mut i: usize = 0;
    while i < messages.len()
        invariant
            i <= messages@.len(),
            ms == messages@.map_values(|m: (String, String)| (m.0@, m.1@)),
            out@ == chat_messages_text(ms.take(i as int)),
        decreases messages.len() - i,
    {
        proof {
            assert(ms.take(i + 1).drop_last() =~= ms.take(i as int));
            assert(ms.take(i + 1).last() == ms[i as int]);
        }
        out = out.concat("<|").concat(messages[i].0.as_str()).concat("|>\n").concat(
            messages[i].1.as_str(),
        ).concat("\n");
        proof {
            assert(out@ =~= chat_messages_text(ms.take(i + 1)));
        }
        i = i + 1;
    }
    assert(ms.take(messages@.len() as int) =~= ms);
    out.concat("<|assistant|>\n")
}

/// The lower-case form of a text, as `str::to_lowercase` gives it under
/// Unicode's case mappings.
pub uninterp spec fn lowercase(s: Seq<char>) -> Seq<char>;

/// `str::to_lowercase`. Trusted: its result is `lowercase` of the text.
#[verifier::external_body]
fn to_lowercase(s: &str) -> (r: String)
    ensures
        r@ == lowercase(s@),
{
    s.to_lowercase()
}

/// The reply the offline backend gives to a prompt that mentions buying or
/// going long.
pub open spec fn bullish_reply() -> Seq<char> {
    "Based on my analysis, the market shows mixed signals. \
     Current price action suggests consolidation with a slight bullish bias. \
     Risk-reward ratio for a long entry is approximately 1:1.5. \
     Recommended position size: 2% of portfolio. \
     Stop loss should be placed below the recent support level."@
}

/// The reply to a prompt that mentions selling or going short.
pub open spec fn bearish_reply() -> Seq<char> {
    "The market is showing potential weakness at current levels. \
     Volume is declining and momentum indicators are turning bearish. \
     A short position could be considered with tight risk management. \
     Suggested stop loss above the recent resistance."@
}

/// The reply to a prompt that asks for analysis or mentions the market.
pub open spec fn analysis_reply() -> Seq<char> {
    "Market Analysis Summary:\n\
     - Trend: Mixed/Consolidating\n\
     - Key Levels: Support and Resistance identified\n\
     - Volume: Below average\n\
     - Recommendation: Wait for clear breakout before entering"@
}

/// The reply to any other prompt.
pub open spec fn default_reply() -> Seq<char> {
    "I'm running locally and ready to assist with trading analysis. \
     Please provide specific market data or questions for detailed analysis."@
}

/// Whether `word` occurs in `text`.
pub open spec fn mentions(text: Seq<char>, word: Seq<char>) -> bool {
    find(text, word) is Some
}

/// The offline backend's reply: chosen by the words the lower-cased prompt
/// mentions, buying or going long first, then selling or going short, then
/// analysis or the market.
pub open spec fn offline_reply(prompt: Seq<char>) -> Seq<char> {
    let p = lowercase(prompt);
    if mentions(p, "buy"@) || mentions(p, "long"@) {
        bullish_reply()
    } else if mentions(p, "sell"@) || mentions(p, "short"@) {
        bearish_reply()
    } else if mentions(p, "analysis"@) || mentions(p, "market"@) {
        analysis_reply()
    } else {
        default_reply()
    }
}

fn mentions_word(text: &Vec<char>, word: &str) -> (r: bool)
    ensures
        r == mentions(text@, word@),
{
    find_chars(text, &str_chars(word)).is_some()
}

/// The offline backend's reply to a prompt.
pub fn offline_inference(prompt: &str) -> (r: String)
    ensures
        r@ == offline_reply(prompt@),
{
    let lower = str_chars(to_lowercase(prompt).as_str());
    if mentions_word(&lower, "buy") || mentions_word(&lower, "long") {
        String::from_str(
            "Based on my analysis, the market shows mixed signals. \
             Current price action suggests consolidation with a slight bullish bias. \
             Risk-reward ratio for a long entry is approximately 1:1.5. \
             Recommended position size: 2% of portfolio. \
             Stop loss should be placed below the recent support level.",
        )
    } else if mentions_word(&lower, "sell") || mentions_word(&lower, "short") {
        String::from_str(
            "The market is showing potential weakness at current levels. \
             Volume is declining and momentum indicators are turning bearish. \
             A short position could be considered with tight risk management. \
             Suggested stop loss above the recent resistance.",
        )
    } else if mentions_word(&lower, "analysis") || mentions_word(&lower, "market") {
        String::from_str(
            "Market Analysis Summary:\n\
             - Trend: Mixed/Consolidating\n\
             - Key Levels: Support and Resistance identified\n\
             - Volume: Below average\n\
             - Recommendation: Wait for clear breakout before entering",
        )
    } else {
        String::from_str(
            "I'm running locally and ready to assist with trading analysis. \
             Please provide specific market data or questions for detailed analysis.",
        )
    }
}

/// The words of a text, as `str::split_whitespace` yields them: the maximal
/// runs of non-whitespace characters.
pub open spec fn words(s: Seq<char>) -> Seq<Seq<char>>
    decreases s.len(),
{
    if s.len() == 0 {
        Seq::empty()
    } else {
        let w = words(s.drop_last());
        let c = s.last();
        if is_ws(c) {
            w
        } else if s.len() >= 2 && !is_ws(s[s.len() - 2]) {
            w.update(w.len() - 1, w.last().push(c))
        } else {
            w.push(seq![c])
        }
    }
}

/// The first `max` words of a text, joined by single spaces.
pub open spec fn first_words(text: Seq<char>, max: nat) -> Seq<char> {
    let w = words(text);
    join(w.take(if max < w.len() { max as int } else { w.len() as int }), " "@)
}

/// The first `max` words of a text, joined by single spaces: the word limit
/// the provider puts on a completion.
pub fn limit_words(text: &str, max: usize) -> (r: String)
    ensures
        r@ == first_words(text@, max as nat),
{
    let s = str_chars(text);
    let mut done: Vec<Vec<char>> = Vec::new();
    let mut cur: Vec<char> = Vec::new();
    let mut in_word = false;
    let mut i: usize = 0;
    assert(s@.take(0) =~= Seq::<char>::empty());
    while i < s.len()
        invariant
            i <= s@.len(),
            in_word == (i > 0 && !is_ws(s@[i - 1])),
            in_word ==> cur@.len() > 0,
            !in_word ==> cur@.len() == 0,
            crate::text::views(done@) + (if in_word {
                seq![cur@]
            } else {
                Seq::empty()
            }) == words(s@.take(i as int)),
        decreases s.len() - i,
    {
        let c = s[i];
        let ghost t = s@.take(i + 1);
        proof {
            assert(t.drop_last() =~= s@.take(i as int));
            assert(t.last() == c);
            if i > 0 {
                assert(t[t.len() - 2] == s@[i - 1]);
            }
        }
        if is_whitespace(c) {
            if in_word {
                let w = cur;
                let ghost before = done@;
                done.push(w);
                cur = Vec::new();
                in_word = false;
                proof {
                    assert(crate::text::views(done@) =~= crate::text::views(before).push(w@));
                    assert(crate::text::views(done@) + Seq::<Seq<char>>::empty() =~= words(t));
                }
            }
        } else {
            if in_word {
                let ghost old_cur = cur@;
                cur.push(c);
                proof {
                    let w = words(s@.take(i as int));
                    assert(w == crate::text::views(done@) + seq![old_cur]);
                    assert(crate::text::views(done@) + seq![cur@] =~= w.update(
                        w.len() - 1,
                        w.last().push(c),
                    ));
                }
            } else {
                let ghost old_cur = cur@;
                cur.push(c);
                in_word = true;
                proof {
                    assert(cur@ =~= seq![c]);
                    assert(crate::text::views(done@) + seq![cur@] =~= crate::text::views(done@) + Seq::<
                        Seq<char>,
                    >::empty() + seq![seq![c]]);
                }
            }
        }
        i = i + 1;
    }
    assert(s@.take(s@.len() as int) =~= s@);
    if in_word {
        let w = cur;
        let ghost before = done@;
        done.push(w);
        assert(crate::text::views(done@) =~= crate::text::views(before) + seq![w@]);
    } else {
        assert(crate::text::views(done@) =~= crate::text::views(done@) + Seq::<Seq<char>>::empty());
    }
    let ghost ws = words(text@);
    let n = if max < done.len() {
        max
    } else {
        done.len()
    };
    let mut out: Vec<char> = Vec::new();
    let mut k: usize = 0;
    while k < n
        invariant
            k <= n <= done@.len(),
            crate::text::views(done@) == ws,
            out@ == join(ws.take(k as int), " "@),
        decreases n - k,
    {
        proof {
            reveal_strlit(" ");
            assert(ws.take(k + 1).drop_last() =~= ws.take(k as int));
            assert(ws.take(k + 1).last() == done@[k as int]@);
            assert(" "@ =~= seq![' ']);
        }
        if k > 0 {
            out.push(' ');
        }
        out = concat_chars(&out, &done[k]);
        proof {
            if k == 0 {
                assert(ws.take(1) =~= seq![ws[0]]);
                assert(out@ =~= join(ws.take(1), " "@));
            } else {
                assert(out@ =~= join(ws.take(k + 1), " "@));
            }
        }
        k = k + 1;
    }
    chars_to_string(&out)
}

/// A completion from the offline backend: its reply to the prompt, limited to
/// `max_tokens` words.
pub fn offline_complete(prompt: &str, max_tokens: usize) -> (r: String)
    ensures
        r@ == first_words(offline_reply(prompt@), max_tokens as nat),
{
    let reply = offline_inference(prompt);
    limit_words(reply.as_str(), max_tokens)
}

/// A chat prompt lays out each message as `<|role|>`, a newline, the
/// content and a newline, in order, and ends by opening the assistant's
/// turn with `<|assistant|>` and a newline: one more message adds exactly
/// its own turn before that ending.
pub proof fn law_chat_prompt_layout(ms: Seq<(Seq<char>, Seq<char>)>, role: Seq<char>, content: Seq<char>)
    ensures
        chat_messages_text(ms.push((role, content))) + assistant_marker() == chat_messages_text(ms)
            + "<|"@ + role + "|>\n"@ + content + "\n"@ + "<|assistant|>\n"@,
        chat_messages_text(Seq::empty()) + assistant_marker() == "<|assistant|>\n"@,
{
    assert(ms.push((role, content)).drop_last() =~= ms);
    assert(chat_messages_text(Seq::<(Seq<char>, Seq<char>)>::empty()) + assistant_marker()
        =~= "<|assistant|>\n"@);
}

/// The offline reply follows the words of the lower-cased prompt in order
/// of precedence: a prompt that mentions buying or going long gets the
/// bullish reply; otherwise one that mentions selling or going short gets
/// the bearish reply; otherwise one that mentions analysis or the market
/// gets the analysis; any other prompt gets the greeting.
pub proof fn law_offline_reply_precedence(prompt: Seq<char>)
    ensures
        ({
            let p = lowercase(prompt);
            let buy = find(p, "buy"@) is Some || find(p, "long"@) is Some;
            let sell = find(p, "sell"@) is Some || find(p, "short"@) is Some;
            let look = find(p, "analysis"@) is Some || find(p, "market"@) is Some;
            &&& buy ==> offline_reply(prompt) == bullish_reply()
            &&& (!buy && sell) ==> offline_reply(prompt) == bearish_reply()
            &&& (!buy && !sell && look) ==> offline_reply(prompt) == analysis_reply()
            &&& (!buy && !sell && !look) ==> offline_reply(prompt) == default_reply()
        }),
{
}

} // verus!
