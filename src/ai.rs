use vstd::prelude::*;
use vstd::string::*;

verus! {

/// Where text transformations are sent.
#[derive(Debug, Clone)]
pub struct AiConfig {
    /// "openai", "deepseek" or "custom".
    pub provider: String,
    pub api_key: String,
    pub model: String,
    pub base_url: Option<String>,
}

/// A transformation of a text clip.
#[derive(Debug, Clone, Copy, PartialEq, Eq, Structural)]
pub enum AiAction {
    Summarize,
    Translate,
    ExplainCode,
    FixGrammar,
}

/// Base URL used when none is configured.
pub const DEFAULT_AI_BASE_URL: &'static str = "https://api.openai.com/v1";

/// The system prompt for `action`.
pub fn system_prompt(action: AiAction) -> (r: &'static str)
    ensures
        action == AiAction::Summarize ==> r@ == "You are a helpful assistant. Summarize the following text concisely."@,
        action == AiAction::Translate ==> r@ == "You are a helpful assistant. Translate the following text to English (or the user's likely preferred language based on context)."@,
        action == AiAction::ExplainCode ==> r@ == "You are a helpful assistant. Explain what the following code does."@,
        action == AiAction::FixGrammar ==> r@ == "You are a helpful assistant. Fix the grammar and improve the style of the following text."@,
{
    match action {
        AiAction::Summarize => "You are a helpful assistant. Summarize the following text concisely.",
        AiAction::Translate => "You are a helpful assistant. Translate the following text to English (or the user's likely preferred language based on context).",
        AiAction::ExplainCode => "You are a helpful assistant. Explain what the following code does.",
        AiAction::FixGrammar => "You are a helpful assistant. Fix the grammar and improve the style of the following text.",
    }
}

/// `s` without its trailing slashes.
pub open spec fn without_trailing_slashes(s: Seq<char>) -> Seq<char>
    decreases s.len(),
{
    if s.len() > 0 && s.last() == '/' {
        without_trailing_slashes(s.drop_last())
    } else {
        s
    }
}

/// Removes every trailing `/` from `s`.
pub fn trim_trailing_slashes(s: &str) -> (r: String)
    ensures
        r@ == without_trailing_slashes(s@),
{
    let mut end = s.unicode_len();
    assert(s@.subrange(0, end as int) =~= s@);
    while end > 0 && s.get_char(end - 1) == '/'
        invariant
            end <= s@.len(),
            without_trailing_slashes(s@.subrange(0, end as int)) == without_trailing_slashes(s@),
        decreases end,
    {
        assert(s@.subrange(0, end as int).drop_last() =~= s@.subrange(0, end - 1));
        end = end - 1;
    }
    s.substring_char(0, end).to_owned()
}

/// The chat-completions endpoint under the configured base URL, or under the
/// default one.
pub fn chat_completions_url(config: &AiConfig) -> (r: String)
    ensures
        r@ == without_trailing_slashes(
            match config.base_url {
                Some(b) => b@,
                None => DEFAULT_AI_BASE_URL@,
            },
        ) + "/chat/completions"@,
{
    let base = match &config.base_url {
        Some(b) => b.as_str(),
        None => DEFAULT_AI_BASE_URL,
    };
    let trimmed = trim_trailing_slashes(base);
    trimmed.concat("/chat/completions")
}

} // verus!
