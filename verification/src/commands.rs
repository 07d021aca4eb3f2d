//! The logic behind the desktop shell's commands.

use vstd::prelude::*;
use crate::config::{AppConfig, first_launch};
use crate::text::{contains_chars, lowercase, str_contains, to_lowercase};

verus! {

/// The status reported to the desktop shell.
#[derive(Debug, Clone)]
pub struct StatusResponse {
    pub running: bool,
    pub paused: bool,
    pub backend: String,
    pub model: String,
}

/// A request to choose the model.
#[derive(Debug, Clone)]
pub struct SetupModelRequest {
    pub model: String,
}

/// The status a configuration reports.
pub fn get_status(config: &AppConfig) -> (r: StatusResponse)
    ensures
        r.running == config.general.enabled,
        !r.paused,
        r.backend@ == config.llm.provider@,
        r.model@ == config.llm.model@,
{
    StatusResponse {
        running: config.general.enabled,
        paused: false,
        backend: config.llm.provider.clone(),
        model: config.llm.model.clone(),
    }
}

/// Pausing from the shell is not wired to the daemon yet: the command always
/// reports that capture is not paused.
pub fn toggle_pause() -> (r: Result<bool, String>)
    ensures
        r == Ok::<bool, String>(false),
{
    Ok(false)
}

/// Families of models that accept images.
pub open spec fn vision_model_families() -> Seq<Seq<char>> {
    seq![
        "moondream"@,
        "llava"@,
        "minicpm-v"@,
        "llava-llama3"@,
        "llava-phi3"@,
        "bakllava"@,
        "cogvlm"@,
        "internvl"@,
    ]
}

/// A model supports vision when its lower-case name contains the name of a
/// vision model family.
pub open spec fn supports_vision(model: Seq<char>) -> bool {
    exists|i: int| 0 <= i < vision_model_families().len() && contains_chars(lowercase(model), #[trigger] vision_model_families()[i])
}

/// Whether the named model supports vision.
pub fn is_vision_model(model: &str) -> (r: bool)
    ensures
        r == supports_vision(model@),
{
    let lower = to_lowercase(model);
    let l = lower.as_str();
    let r = str_contains(l, "moondream") || str_contains(l, "llava") || str_contains(l, "minicpm-v")
        || str_contains(l, "llava-llama3") || str_contains(l, "llava-phi3") || str_contains(l, "bakllava")
        || str_contains(l, "cogvlm") || str_contains(l, "internvl");
    proof {
        let f = vision_model_families();
        assert(f[0] == "moondream"@);
        assert(f[1] == "llava"@);
        assert(f[2] == "minicpm-v"@);
        assert(f[3] == "llava-llama3"@);
        assert(f[4] == "llava-phi3"@);
        assert(f[5] == "bakllava"@);
        assert(f[6] == "cogvlm"@);
        assert(f[7] == "internvl"@);
    }
    r
}

/// The description of a mode, as the confirmation message words it.
pub open spec fn mode_text(vision: bool) -> Seq<char> {
    if vision {
        "vision (screenshot context enabled)"@
    } else {
        "text-only (screenshot context disabled)"@
    }
}

/// Records the chosen model and whether it supports vision, and returns the
/// confirmation message. Everything else in the configuration is unchanged.
pub fn setup_model(request: SetupModelRequest, config: &mut AppConfig) -> (r: String)
    ensures
        final(config).llm.model@ == request.model@,
        final(config).llm.model_supports_vision == supports_vision(request.model@),
        final(config).llm.provider == old(config).llm.provider,
        final(config).llm.ollama_host == old(config).llm.ollama_host,
        final(config).general == old(config).general,
        final(config).privacy == old(config).privacy,
        final(config).overlay == old(config).overlay,
        r@ == "Model set to: "@ + request.model@ + " ["@ + mode_text(supports_vision(request.model@)) + "]"@,
{
    let is_vision = is_vision_model(request.model.as_str());
    config.llm.model = request.model.clone();
    config.llm.model_supports_vision = is_vision;
    let mode = if is_vision {
        "vision (screenshot context enabled)"
    } else {
        "text-only (screenshot context disabled)"
    };
    let mut msg = "Model set to: ".to_owned();
    msg.append(request.model.as_str());
    msg.append(" [");
    msg.append(mode);
    msg.append("]");
    msg
}

/// Choosing a non-empty model ends the first-launch state.
pub proof fn lemma_setup_ends_first_launch(after: AppConfig, model: Seq<char>)
    requires
        after.llm.model@ == model,
        model.len() > 0,
    ensures
        !first_launch(after),
{
}

/// A model supports vision exactly when its lower-case name contains one of
/// the eight vision families: moondream, llava, minicpm-v, llava-llama3,
/// llava-phi3, bakllava, cogvlm, internvl.
pub proof fn lemma_vision_families(model: Seq<char>)
    ensures
        supports_vision(model) <==> {
            let l = lowercase(model);
            ||| contains_chars(l, "moondream"@)
            ||| contains_chars(l, "llava"@)
            ||| contains_chars(l, "minicpm-v"@)
            ||| contains_chars(l, "llava-llama3"@)
            ||| contains_chars(l, "llava-phi3"@)
            ||| contains_chars(l, "bakllava"@)
            ||| contains_chars(l, "cogvlm"@)
            ||| contains_chars(l, "internvl"@)
        },
{
    let f = vision_model_families();
    let l = lowercase(model);
    assert(f.len() == 8);
    assert(f[0] == "moondream"@);
    assert(f[1] == "llava"@);
    assert(f[2] == "minicpm-v"@);
    assert(f[3] == "llava-llama3"@);
    assert(f[4] == "llava-phi3"@);
    assert(f[5] == "bakllava"@);
    assert(f[6] == "cogvlm"@);
    assert(f[7] == "internvl"@);
    if supports_vision(model) {
        let i = choose|i: int| 0 <= i < f.len() && contains_chars(l, #[trigger] f[i]);
        assert(0 <= i < 8);
        assert(i == 0 || i == 1 || i == 2 || i == 3 || i == 4 || i == 5 || i == 6 || i == 7);
    }
}

} // verus!
