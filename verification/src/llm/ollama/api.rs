//! The request and response logic of the Ollama REST API.

use vstd::prelude::*;
use crate::llm::{CompletionChunk, CompletionParams, LlmError, ModelInfo};
use crate::text::{decode_lossy, split_lines, text_lines, utf8_lossy};

verus! {

/// A generate request as the Ollama API takes it, but for its sampling
/// temperature.
#[derive(Debug, Clone)]
pub struct GenerateRequest {
    pub model: String,
    pub prompt: String,
    pub system: Option<String>,
    pub stream: bool,
    pub num_predict: i32,
    pub stop: Option<Vec<String>>,
}

/// One line of a streamed generate response.
#[derive(Debug, Clone)]
pub struct GenerateResponse {
    pub response: String,
    pub done: bool,
}

/// One model in the model list the API returns.
#[derive(Debug, Clone)]
pub struct TagModel {
    pub name: String,
    pub size: u64,
    pub modified_at: String,
}

/// The token limit as the API's signed field holds it: the same number when
/// it fits, else wrapped around, as an `as i32` conversion does.
pub open spec fn token_limit(max_tokens: u32) -> int {
    if max_tokens <= i32::MAX {
        max_tokens as int
    } else {
        max_tokens - 0x1_0000_0000
    }
}

/// Builds a streaming generate request from completion parameters. Stop
/// sequences are sent only when there are any; the context text is not sent.
pub fn generate_request(params: CompletionParams) -> (r: GenerateRequest)
    ensures
        r.model == params.model,
        r.prompt == params.prompt,
        r.system == params.system,
        r.stream,
        r.num_predict == token_limit(params.max_tokens),
        params.stop_sequences@.len() == 0 ==> r.stop is None,
        params.stop_sequences@.len() > 0 ==> r.stop == Some(params.stop_sequences),
{
    let num_predict: i32 = if params.max_tokens <= 0x7fff_ffff {
        params.max_tokens as i32
    } else {
        (params.max_tokens as i64 - 0x1_0000_0000i64) as i32
    };
    let stop = if params.stop_sequences.len() == 0 {
        None
    } else {
        Some(params.stop_sequences)
    };
    GenerateRequest { model: params.model, prompt: params.prompt, system: params.system, stream: true, num_predict, stop }
}

/// The non-empty lines of a text.
pub open spec fn nonempty_lines(s: Seq<char>) -> Seq<Seq<char>> {
    text_lines(s).filter(|l: Seq<char>| l.len() > 0)
}

/// The non-empty lines of a chunk of a streamed response, each a JSON
/// document. The bytes are decoded leniently, as `String::from_utf8_lossy`
/// does.
pub fn json_lines(chunk: &[u8]) -> (r: Vec<String>)
    ensures
        r@.map_values(|l: String| l@) == nonempty_lines(utf8_lossy(chunk@)),
{
    let text = decode_lossy(chunk);
    let lines = split_lines(text.as_str());
    let ghost all = lines@.map_values(|l: String| l@);
    let ghost keep = |l: Seq<char>| l.len() > 0;
    let mut out: Vec<String> = Vec::new();
    let n = lines.len();
    let mut i: usize = 0;
    while i < n
        invariant
            n == lines@.len(),
            i <= n,
            all == lines@.map_values(|l: String| l@),
            out@.map_values(|l: String| l@) == all.take(i as int).filter(keep),
            keep == (|l: Seq<char>| l.len() > 0),
        decreases n - i,
    {
        let ghost before = out@;
        let line = lines[i].clone();
        assert(all[i as int] == lines@[i as int]@);
        let nonempty = !line.as_str().is_empty();
        if nonempty {
            out.push(line);
        }
        proof {
            reveal_with_fuel(Seq::filter, 1);
            assert(all.take(i + 1).drop_last() =~= all.take(i as int));
            assert(out@.map_values(|l: String| l@) =~= if nonempty {
                before.map_values(|l: String| l@).push(all[i as int])
            } else {
                before.map_values(|l: String| l@)
            });
        }
        i = i + 1;
    }
    assert(all.take(n as int) =~= all);
    out
}

/// The text of the parsed lines of a chunk, joined in order; lines that did
/// not parse contribute nothing.
pub open spec fn merged_text(parsed: Seq<Option<GenerateResponse>>) -> Seq<char>
    decreases parsed.len(),
{
    if parsed.len() == 0 {
        Seq::empty()
    } else {
        merged_text(parsed.drop_last()) + match parsed.last() {
            Some(r) => r.response@,
            None => Seq::empty(),
        }
    }
}

/// Whether the last line of a chunk that parsed says the response is done.
pub open spec fn merged_done(parsed: Seq<Option<GenerateResponse>>) -> bool
    decreases parsed.len(),
{
    if parsed.len() == 0 {
        false
    } else {
        match parsed.last() {
            Some(r) => r.done,
            None => merged_done(parsed.drop_last()),
        }
    }
}

/// Folds the parsed lines of one chunk of a generate stream into one
/// completion chunk (`None` for a line that did not parse).
pub fn merge_generate_responses(parsed: Vec<Option<GenerateResponse>>) -> (r: CompletionChunk)
    ensures
        r.text@ == merged_text(parsed@),
        r.done == merged_done(parsed@),
{
    let mut text = String::new();
    let mut done = false;
    let n = parsed.len();
    let mut i: usize = 0;
    while i < n
        invariant
            n == parsed@.len(),
            i <= n,
            text@ == merged_text(parsed@.take(i as int)),
            done == merged_done(parsed@.take(i as int)),
        decreases n - i,
    {
        proof {
            assert(parsed@.take(i + 1).drop_last() =~= parsed@.take(i as int));
            assert(parsed@.take(i + 1).last() == parsed@[i as int]);
        }
        match &parsed[i] {
            Some(resp) => {
                text.append(resp.response.as_str());
                done = resp.done;
            },
            None => {
                assert(text@ =~= text@ + Seq::<char>::empty());
            },
        }
        i = i + 1;
    }
    assert(parsed@.take(n as int) =~= parsed@);
    CompletionChunk { text, done }
}

/// The model list entries as model descriptions, in order.
pub fn models_from_tags(tags: &Vec<TagModel>) -> (r: Vec<ModelInfo>)
    ensures
        r@.len() == tags@.len(),
        forall|i: int|
            0 <= i < tags@.len() ==> {
                &&& #[trigger] r@[i].name@ == tags@[i].name@
                &&& r@[i].size_bytes == tags@[i].size
                &&& r@[i].modified_at@ == tags@[i].modified_at@
            },
{
    let mut out: Vec<ModelInfo> = Vec::new();
    let n = tags.len();
    let mut i: usize = 0;
    while i < n
        invariant
            n == tags@.len(),
            i <= n,
            out@.len() == i,
            forall|k: int|
                0 <= k < i ==> {
                    &&& #[trigger] out@[k].name@ == tags@[k].name@
                    &&& out@[k].size_bytes == tags@[k].size
                    &&& out@[k].modified_at@ == tags@[k].modified_at@
                },
        decreases n - i,
    {
        let t = &tags[i];
        out.push(ModelInfo { name: t.name.clone(), size_bytes: t.size, modified_at: t.modified_at.clone() });
        i = i + 1;
    }
    out
}

/// The version a health check reports: the `version` field when it is a
/// string, else `"unknown"`.
pub fn reported_version(version: Option<&str>) -> (r: String)
    ensures
        r@ == match version {
            Some(v) => v@,
            None => "unknown"@,
        },
{
    match version {
        Some(v) => v.to_owned(),
        None => "unknown".to_owned(),
    }
}

/// The error for a pull request the server refused.
pub fn pull_failed(status: &str) -> (r: LlmError)
    ensures
        r matches LlmError::DownloadError(m) && m@ == "Pull failed with status: "@ + status@,
{
    let mut m = "Pull failed with status: ".to_owned();
    m.append(status);
    LlmError::DownloadError(m)
}

/// The error for a generate request the server refused.
pub fn generate_failed(body: &str) -> (r: LlmError)
    ensures
        r matches LlmError::InferenceError(m) && m@ == "Generate failed: "@ + body@,
{
    let mut m = "Generate failed: ".to_owned();
    m.append(body);
    LlmError::InferenceError(m)
}

/// The endpoints of the API the library uses.
#[derive(Debug, Clone, Copy, PartialEq, Eq, Structural)]
pub enum ApiEndpoint {
    Version,
    Tags,
    Pull,
    Generate,
}

/// The path of an endpoint.
pub open spec fn endpoint_path(ep: ApiEndpoint) -> Seq<char> {
    match ep {
        ApiEndpoint::Version => "/api/version"@,
        ApiEndpoint::Tags => "/api/tags"@,
        ApiEndpoint::Pull => "/api/pull"@,
        ApiEndpoint::Generate => "/api/generate"@,
    }
}

/// The address of an API endpoint on a host.
pub fn endpoint_url(host: &str, ep: ApiEndpoint) -> (r: String)
    ensures
        r@ == host@ + endpoint_path(ep),
{
    let path = match ep {
        ApiEndpoint::Version => "/api/version",
        ApiEndpoint::Tags => "/api/tags",
        ApiEndpoint::Pull => "/api/pull",
        ApiEndpoint::Generate => "/api/generate",
    };
    let mut u = host.to_owned();
    u.append(path);
    u
}

/// Merging keeps every parsed response's text verbatim and in order: a
/// parsed line appends its text unchanged, a line that did not parse adds
/// nothing, and a single parsed line comes back as it is. The done flag is
/// that of the last parsed line.
pub proof fn lemma_merge_appends_verbatim(parsed: Seq<Option<GenerateResponse>>, r: GenerateResponse)
    ensures
        merged_text(Seq::<Option<GenerateResponse>>::empty()) == Seq::<char>::empty(),
        merged_text(parsed.push(Some(r))) == merged_text(parsed) + r.response@,
        merged_text(parsed.push(None)) == merged_text(parsed),
        merged_text(seq![Some(r)]) == r.response@,
        merged_done(parsed.push(Some(r))) == r.done,
        merged_done(parsed.push(None)) == merged_done(parsed),
{
    assert(parsed.push(Some(r)).drop_last() =~= parsed);
    assert(parsed.push(None::<GenerateResponse>).drop_last() =~= parsed);
    assert(merged_text(parsed.push(None)) =~= merged_text(parsed) + Seq::<char>::empty());
    let one = seq![Some(r)];
    assert(one.len() == 1);
    assert(one.last() == Some(r));
    assert(one.drop_last() =~= Seq::<Option<GenerateResponse>>::empty());
    assert(merged_text(one.drop_last()) == Seq::<char>::empty());
    assert(merged_text(one) == merged_text(one.drop_last()) + r.response@);
    assert(Seq::<char>::empty() + r.response@ =~= r.response@);
}

} // verus!
