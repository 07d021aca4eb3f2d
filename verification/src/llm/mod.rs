//! The language-model side: request parameters, streamed chunks, errors, and
//! the collection of a streamed suggestion.

pub mod ollama;
pub mod prompt;

use vstd::prelude::*;

verus! {

/// A streamed piece of a completion.
#[derive(Debug, Clone)]
pub struct CompletionChunk {
    pub text: String,
    pub done: bool,
}

/// A model available to the backend.
#[derive(Debug, Clone)]
pub struct ModelInfo {
    pub name: String,
    pub size_bytes: u64,
    pub modified_at: String,
}

/// Errors of the language-model backend.
#[derive(Debug)]
pub enum LlmError {
    NotInstalled,
    NotRunning,
    ModelNotFound(String),
    DownloadError(String),
    InferenceError(String),
    ProcessError(String),
    NetworkError(String),
}

/// The message an error is shown with.
pub open spec fn llm_error_text(e: LlmError) -> Seq<char> {
    match e {
        LlmError::NotInstalled => "Backend not installed"@,
        LlmError::NotRunning => "Backend not running"@,
        LlmError::ModelNotFound(m) => "Model not found: "@ + m@,
        LlmError::DownloadError(m) => "Download failed: "@ + m@,
        LlmError::InferenceError(m) => "Inference error: "@ + m@,
        LlmError::ProcessError(m) => "Process error: "@ + m@,
        LlmError::NetworkError(m) => "Network error: "@ + m@,
    }
}

fn prefixed(prefix: &str, detail: &String) -> (r: String)
    ensures
        r@ == prefix@ + detail@,
{
    let mut s = prefix.to_owned();
    s.append(detail.as_str());
    s
}

impl LlmError {
    /// The message this error is shown with.
    pub fn message(&self) -> (r: String)
        ensures
            r@ == llm_error_text(*self),
    {
        match self {
            LlmError::NotInstalled => "Backend not installed".to_owned(),
            LlmError::NotRunning => "Backend not running".to_owned(),
            LlmError::ModelNotFound(m) => prefixed("Model not found: ", m),
            LlmError::DownloadError(m) => prefixed("Download failed: ", m),
            LlmError::InferenceError(m) => prefixed("Inference error: ", m),
            LlmError::ProcessError(m) => prefixed("Process error: ", m),
            LlmError::NetworkError(m) => prefixed("Network error: ", m),
        }
    }
}

/// Everything of a completion request but its sampling temperature.
#[derive(Debug, Clone)]
pub struct CompletionParams {
    pub model: String,
    pub prompt: String,
    pub system: Option<String>,
    pub context_text: Option<String>,
    pub max_tokens: u32,
    pub stop_sequences: Vec<String>,
}

/// Most tokens a suggestion may take.
pub const SUGGESTION_MAX_TOKENS: u32 = 200;

/// The request for a suggestion on typed text: the default model, the
/// suggestion prompt, the system prompt, at most 200 tokens, stopping at a
/// blank line.
pub fn suggestion_params(text: &str, context: Option<&str>) -> (r: CompletionParams)
    ensures
        r.model@ == Seq::<char>::empty(),
        r.prompt@ == prompt::suggestion_prompt(text@, match context { Some(c) => Some(c@), None => None }),
        r.system matches Some(s) && s@ == prompt::system_prompt_text(),
        match context {
            Some(c) => r.context_text matches Some(t) && t@ == c@,
            None => r.context_text is None,
        },
        r.max_tokens == SUGGESTION_MAX_TOKENS,
        r.stop_sequences@.map_values(|s: String| s@) == seq!["\n\n"@],
{
    let context_text = match context {
        Some(c) => Some(c.to_owned()),
        None => None,
    };
    let mut stop_sequences: Vec<String> = Vec::new();
    stop_sequences.push("\n\n".to_owned());
    assert(stop_sequences@.map_values(|s: String| s@) =~= seq!["\n\n"@]);
    CompletionParams {
        model: String::new(),
        prompt: prompt::build_suggestion_prompt(text, context),
        system: Some(prompt::system_prompt().to_owned()),
        context_text,
        max_tokens: SUGGESTION_MAX_TOKENS,
        stop_sequences,
    }
}

/// What collecting a suggestion does after one item of the stream.
#[derive(Debug)]
pub enum CollectStep {
    /// Pull the next item.
    Continue,
    /// The suggestion is complete.
    Finished(String),
    /// The stream reported an error; it is returned as is.
    Failed(LlmError),
}

/// The text collected and whether collection is finished, after one chunk.
pub open spec fn collect_step(acc: Seq<char>, chunk_text: Seq<char>, chunk_done: bool) -> (Seq<char>, bool) {
    (acc + chunk_text, chunk_done)
}

/// The suggestion a stream of chunks (text, done) yields: the texts joined,
/// up to and including the first chunk marked done.
pub open spec fn text_until_done(chunks: Seq<(Seq<char>, bool)>) -> Seq<char>
    decreases chunks.len(),
{
    if chunks.len() == 0 {
        Seq::empty()
    } else if chunks[0].1 {
        chunks[0].0
    } else {
        chunks[0].0 + text_until_done(chunks.drop_first())
    }
}

/// Collection run over a stream of chunks from text `acc`: the suggestion
/// returned when the stream ends or a chunk is marked done.
pub open spec fn collect_run(acc: Seq<char>, chunks: Seq<(Seq<char>, bool)>) -> Seq<char>
    decreases chunks.len(),
{
    if chunks.len() == 0 {
        acc
    } else {
        let (next, finished) = collect_step(acc, chunks[0].0, chunks[0].1);
        if finished {
            next
        } else {
            collect_run(next, chunks.drop_first())
        }
    }
}

/// Accumulates the chunks of a streamed completion into the suggestion.
pub struct SuggestionCollector {
    result: String,
}

impl SuggestionCollector {
    /// The text collected so far.
    pub closed spec fn collected(&self) -> Seq<char> {
        self.result@
    }

    pub fn new() -> (c: Self)
        ensures
            c.collected() == Seq::<char>::empty(),
    {
        SuggestionCollector { result: String::new() }
    }

    /// Takes the next item of the stream (`None` once it has ended).
    pub fn accept(&mut self, item: Option<Result<CompletionChunk, LlmError>>) -> (r: CollectStep)
        ensures
            match item {
                None => {
                    &&& final(self).collected() == old(self).collected()
                    &&& r matches CollectStep::Finished(s) && s@ == old(self).collected()
                },
                Some(Ok(c)) => {
                    &&& (final(self).collected(), c.done) == collect_step(old(self).collected(), c.text@, c.done)
                    &&& c.done ==> (r matches CollectStep::Finished(s) && s@ == final(self).collected())
                    &&& !c.done ==> r is Continue
                },
                Some(Err(e)) => {
                    &&& final(self).collected() == old(self).collected()
                    &&& r matches CollectStep::Failed(e2) && e2 == e
                },
            },
    {
        match item {
            None => CollectStep::Finished(self.result.clone()),
            Some(Ok(c)) => {
                self.result.append(c.text.as_str());
                if c.done {
                    CollectStep::Finished(self.result.clone())
                } else {
                    CollectStep::Continue
                }
            },
            Some(Err(e)) => CollectStep::Failed(e),
        }
    }
}

/// Collecting a stream from scratch yields the chunk texts joined up to and
/// including the first chunk marked done (all of them if none is).
pub proof fn lemma_collect_joins_until_done(chunks: Seq<(Seq<char>, bool)>)
    ensures
        collect_run(Seq::empty(), chunks) == text_until_done(chunks),
{
    lemma_collect_from(Seq::empty(), chunks);
    assert(Seq::<char>::empty() + text_until_done(chunks) =~= text_until_done(chunks));
}

/// Collection from text `acc` yields `acc` followed by the stream's text.
pub proof fn lemma_collect_from(acc: Seq<char>, chunks: Seq<(Seq<char>, bool)>)
    ensures
        collect_run(acc, chunks) == acc + text_until_done(chunks),
    decreases chunks.len(),
{
    if chunks.len() == 0 {
        assert(acc + Seq::<char>::empty() =~= acc);
    } else if !chunks[0].1 {
        lemma_collect_from(acc + chunks[0].0, chunks.drop_first());
        assert(acc + chunks[0].0 + text_until_done(chunks.drop_first()) =~= acc + (chunks[0].0 + text_until_done(chunks.drop_first())));
    }
}

} // verus!
