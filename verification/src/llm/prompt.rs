//! Prompts for the suggestion model.

use vstd::prelude::*;

verus! {

/// The system prompt for the suggestion model.
pub open spec fn system_prompt_text() -> Seq<char> {
    "You are a writing assistant. Your task is to suggest improved versions of text the user is currently typing. Be concise, preserve the user's intent and tone, and only suggest if you can meaningfully improve the text. If the text is already good, respond with exactly the same text. Do not add explanations or commentary — output only the improved text."@
}

/// The user prompt for typed text and optional on-screen context.
pub open spec fn suggestion_prompt(typed: Seq<char>, context: Option<Seq<char>>) -> Seq<char> {
    match context {
        Some(ctx) => "Context (what the user sees on screen):\n"@ + ctx + "\n\nText being typed:\n"@ + typed
            + "\n\nSuggest an improved version:"@,
        None => "Text being typed:\n"@ + typed + "\n\nSuggest an improved version:"@,
    }
}

/// System prompt for the suggestion model.
pub fn system_prompt() -> (r: &'static str)
    ensures
        r@ == system_prompt_text(),
{
    "You are a writing assistant. Your task is to suggest improved versions of text the user is currently typing. Be concise, preserve the user's intent and tone, and only suggest if you can meaningfully improve the text. If the text is already good, respond with exactly the same text. Do not add explanations or commentary — output only the improved text."
}

/// Builds the user prompt from the typed text and optional surrounding context.
pub fn build_suggestion_prompt(typed_text: &str, context: Option<&str>) -> (r: String)
    ensures
        r@ == suggestion_prompt(typed_text@, match context { Some(c) => Some(c@), None => None }),
{
    match context {
        Some(ctx) => {
            let mut s = "Context (what the user sees on screen):\n".to_owned();
            s.append(ctx);
            s.append("\n\nText being typed:\n");
            s.append(typed_text);
            s.append("\n\nSuggest an improved version:");
            s
        },
        None => {
            let mut s = "Text being typed:\n".to_owned();
            s.append(typed_text);
            s.append("\n\nSuggest an improved version:");
            s
        },
    }
}

/// The prompt always carries the typed text verbatim, right after its heading.
pub proof fn lemma_prompt_quotes_typed_text(typed: Seq<char>, context: Option<Seq<char>>)
    ensures
        crate::text::contains_chars(suggestion_prompt(typed, context), typed),
{
    let p = suggestion_prompt(typed, context);
    match context {
        Some(ctx) => {
            let pre = "Context (what the user sees on screen):\n"@ + ctx + "\n\nText being typed:\n"@;
            let post = "\n\nSuggest an improved version:"@;
            assert(p == pre + typed + post);
            assert(p.subrange(pre.len() as int, (pre.len() + typed.len()) as int) =~= typed);
            assert(crate::text::occurs_at(p, typed, pre.len() as int));
        },
        None => {
            let pre = "Text being typed:\n"@;
            let post = "\n\nSuggest an improved version:"@;
            assert(p == pre + typed + post);
            assert(p.subrange(pre.len() as int, (pre.len() + typed.len()) as int) =~= typed);
            assert(crate::text::occurs_at(p, typed, pre.len() as int));
        },
    }
}

} // verus!
