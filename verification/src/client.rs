//! What the chat-completion client is set up with and how it reads what a
//! model sends back. The HTTP exchange itself belongs to the caller.

use vstd::prelude::*;
use crate::chat::{ChatCompletionChunk, ChatCompletionResponse, Choice, Delta, DeltaChoice, MessageRole};
use crate::settings::{first_model, AppSettings, ModelConfig};
use crate::text::{
    ascii_lower, chars_of, contains, to_ascii_lowercase, lowercase_chars, lowercase_of, seq_contains, str_eq, string_from_chars, trim, trim_seq,
};

verus! {

/// The endpoint and model a client talks to, its key, and the local model
/// it falls back to.
#[derive(Debug, Clone)]
pub struct ClientProfile {
    pub base_url: String,
    pub api_key: Option<String>,
    pub model_name: String,
    pub fallback_base_url: Option<String>,
    pub fallback_model_name: Option<String>,
    pub provider: String,
}

/// Models served by the local model runner get no key and the local
/// generation settings.
pub open spec fn is_local_runner(provider: Seq<char>) -> bool {
    provider == "docker-model-runner"@
}

/// A retired Gemma 4 on the local runner falls back to the local Gemma 3.
pub open spec fn needs_fallback(m: ModelConfig) -> bool {
    is_local_runner(m.provider@)
        && (m.id@ == "gemma4-local"@ || seq_contains(lowercase_of(m.model_name@), "gemma4"@))
}

pub open spec fn opt_text(o: Option<String>) -> Option<Seq<char>> {
    match o {
        Some(s) => Some(s@),
        None => None,
    }
}

/// What a client is set up with for the selected model: its URL, model and
/// provider; no key for the local runner; and, for a retired Gemma 4, the
/// first configured Gemma 3 as fallback.
pub open spec fn profile_spec(settings: AppSettings, r: ClientProfile) -> bool {
    match first_model(settings.models@, settings.selected_model@, 0) {
        None => false,
        Some(k) => {
            let m = settings.models@[k];
            &&& r.base_url@ == m.base_url@
            &&& r.model_name@ == m.model_name@
            &&& r.provider@ == m.provider@
            &&& is_local_runner(m.provider@) ==> r.api_key is None
            &&& m.api_key is None ==> r.api_key is None
            &&& if needs_fallback(m) {
                match first_model(settings.models@, "gemma3-local"@, 0) {
                    Some(j) => opt_text(r.fallback_base_url) == Some(settings.models@[j].base_url@)
                        && opt_text(r.fallback_model_name) == Some(settings.models@[j].model_name@),
                    None => r.fallback_base_url is None && r.fallback_model_name is None,
                }
            } else {
                r.fallback_base_url is None && r.fallback_model_name is None
            }
        },
    }
}

fn find_model_index(models: &Vec<ModelConfig>, id: &str) -> (r: Option<usize>)
    ensures
        match r {
            Some(k) => first_model(models@, id@, 0) == Some(k as int) && k < models.len(),
            None => first_model(models@, id@, 0) is None,
        },
{
    let mut k: usize = 0;
    while k < models.len()
        invariant
            k <= models.len(),
            first_model(models@, id@, 0) == first_model(models@, id@, k as int),
        decreases models.len() - k,
    {
        if str_eq(models[k].id.as_str(), id) {
            return Some(k);
        }
        k += 1;
    }
    None
}

proof fn lemma_first_model_hit(models: Seq<ModelConfig>, id: Seq<char>, i: int)
    ensures
        first_model(models, id, i) matches Some(k) ==> 0 <= k < models.len() && models[k].id@ == id,
    decreases models.len() - i,
{
    if 0 <= i < models.len() && models[i].id@ != id {
        lemma_first_model_hit(models, id, i + 1);
    }
}

/// What a client is set up with for the selected model; an error when no
/// model is selected.
pub fn client_profile(settings: &AppSettings) -> (r: Result<ClientProfile, String>)
    ensures
        match r {
            Ok(p) => profile_spec(*settings, p),
            Err(e) => first_model(settings.models@, settings.selected_model@, 0) is None && e@ == "No model selected"@,
        },
{
    let model = match settings.current_model() {
        Some(m) => m,
        None => return Err(String::from_str("No model selected")),
    };
    proof {
        lemma_first_model_hit(settings.models@, settings.selected_model@, 0);
    }
    let local = str_eq(model.provider.as_str(), "docker-model-runner");
    let api_key = if local { None } else { settings.get_api_key(model.id.as_str()) };
    let retired = local && (str_eq(model.id.as_str(), "gemma4-local")
        || contains(&lowercase_chars(model.model_name.as_str()), "gemma4"));
    let (fallback_base_url, fallback_model_name) = if retired {
        match find_model_index(&settings.models, "gemma3-local") {
            Some(j) => (Some(settings.models[j].base_url.clone()), Some(settings.models[j].model_name.clone())),
            None => (None, None),
        }
    } else {
        (None, None)
    };
    Ok(ClientProfile {
        base_url: model.base_url.clone(),
        api_key,
        model_name: model.model_name.clone(),
        fallback_base_url,
        fallback_model_name,
        provider: model.provider.clone(),
    })
}

impl ClientProfile {
    /// Whether the local generation settings apply.
    pub fn local_generation_profile(&self) -> (r: bool)
        ensures
            r == is_local_runner(self.provider@),
    {
        str_eq(self.provider.as_str(), "docker-model-runner")
    }

    /// The token limit of a reply: 500 locally, else 2048.
    pub fn generation_max_tokens(&self) -> (r: u32)
        ensures
            r == if is_local_runner(self.provider@) { 500u32 } else { 2048u32 },
    {
        if self.local_generation_profile() { 500 } else { 2048 }
    }
}

/// A choice whose answer is blank shows its reasoning instead, trimmed,
/// when that is not blank.
pub open spec fn normalized_choice(c: Choice, n: Choice) -> bool {
    &&& n.index == c.index
    &&& n.finish_reason == c.finish_reason
    &&& n.message.role == c.message.role
    &&& n.message.reasoning_content == c.message.reasoning_content
    &&& n.message.tool_call_id == c.message.tool_call_id
    &&& n.message.tool_calls == c.message.tool_calls
    &&& if trim_seq(c.message.content@).len() == 0 && (c.message.reasoning_content matches Some(r)
        && trim_seq(r@).len() > 0) {
        n.message.content@ == trim_seq(c.message.reasoning_content->0@)
    } else {
        n.message.content == c.message.content
    }
}

/// Shows the reasoning of the choices whose answer is blank.
pub fn normalize_reasoning_content(resp: &mut ChatCompletionResponse)
    ensures
        final(resp).id == old(resp).id,
        final(resp).usage == old(resp).usage,
        final(resp).choices@.len() == old(resp).choices@.len(),
        forall|i: int| 0 <= i < old(resp).choices@.len() ==> normalized_choice(old(resp).choices@[i], #[trigger] final(resp).choices@[i]),
{
    let ghost start = resp.choices@;
    let mut kept: Vec<Choice> = Vec::new();
    while resp.choices.len() > 0
        invariant
            kept@.len() + resp.choices@.len() == start.len(),
            resp.choices@ == start.skip(kept@.len() as int),
            forall|i: int| 0 <= i < kept@.len() ==> normalized_choice(start[i], #[trigger] kept@[i]),
            resp.id == old(resp).id,
            resp.usage == old(resp).usage,
        decreases resp.choices@.len(),
    {
        let ghost k = kept@.len();
        let mut c = resp.choices.remove(0);
        assert(c == start[k as int]);
        assert(resp.choices@ =~= start.skip(k as int + 1));
        if trim(c.message.content.as_str()).len() == 0 {
            let mut replacement: Option<String> = None;
            match &c.message.reasoning_content {
                Some(r) => {
                    let t = trim(r.as_str());
                    if t.len() > 0 {
                        replacement = Some(string_from_chars(&t));
                    }
                },
                None => {},
            }
            match replacement {
                Some(t) => {
                    c.message.content = t;
                },
                None => {},
            }
        }
        kept.push(c);
    }
    resp.choices = kept;
}

/// The chunk that stands for one choice of a whole reply.
pub open spec fn chunk_of(id: Option<String>, c: Choice, k: ChatCompletionChunk) -> bool {
    &&& opt_text(k.id) == opt_text(id)
    &&& k.choices@.len() == 1
    &&& k.choices@[0].index == c.index
    &&& k.choices@[0].finish_reason == c.finish_reason
    &&& k.choices@[0].delta.role == Some(MessageRole::Assistant)
    &&& k.choices@[0].delta.content == Some(c.message.content)
    &&& k.choices@[0].delta.reasoning_content == c.message.reasoning_content
    &&& k.choices@[0].delta.tool_calls == c.message.tool_calls
}

fn copy_opt(o: &Option<String>) -> (r: Option<String>)
    ensures
        opt_text(r) == opt_text(*o),
{
    match o {
        Some(s) => Some(s.clone()),
        None => None,
    }
}

/// A whole reply as a stream: one chunk per choice, in order.
pub fn response_to_stream_chunks(resp: ChatCompletionResponse) -> (r: Vec<Result<ChatCompletionChunk, String>>)
    ensures
        r@.len() == resp.choices@.len(),
        forall|i: int| 0 <= i < r@.len() ==> ((#[trigger] r@[i]) matches Ok(k) && chunk_of(resp.id, resp.choices@[i], k)),
{
    let id = resp.id;
    let mut choices = resp.choices;
    let ghost start = choices@;
    let mut out: Vec<Result<ChatCompletionChunk, String>> = Vec::new();
    while choices.len() > 0
        invariant
            out@.len() + choices@.len() == start.len(),
            choices@ == start.skip(out@.len() as int),
            forall|i: int| 0 <= i < out@.len() ==> ((#[trigger] out@[i]) matches Ok(k) && chunk_of(id, start[i], k)),
        decreases choices@.len(),
    {
        let ghost k = out@.len();
        let c = choices.remove(0);
        assert(c == start[k as int]);
        assert(choices@ =~= start.skip(k as int + 1));
        let chunk = ChatCompletionChunk {
            id: copy_opt(&id),
            choices: vec![DeltaChoice {
                delta: Delta {
                    role: Some(MessageRole::Assistant),
                    content: Some(c.message.content),
                    reasoning_content: c.message.reasoning_content,
                    tool_calls: c.message.tool_calls,
                },
                index: c.index,
                finish_reason: c.finish_reason,
            }],
        };
        out.push(Ok(chunk));
    }
    out
}

/// The error of a failed request: the status and what the server said.
pub open spec fn api_error_spec(stream: bool, status: Seq<char>, body: Seq<char>) -> Seq<char> {
    (if stream { "AI Stream Error ("@ } else { "AI API Error ("@ }) + status + "): "@ + body
}

/// The error of a failed request.
pub fn api_error_message(stream: bool, status: &str, body: &str) -> (r: String)
    ensures
        r@ == api_error_spec(stream, status@, body@),
{
    let mut out = String::from_str(if stream { "AI Stream Error (" } else { "AI API Error (" });
    out.append(status);
    out.append("): ");
    out.append(body);
    out
}

/// The error when both the model and its fallback failed.
pub open spec fn fallback_error_spec(stream: bool, primary: Seq<char>, fallback: Seq<char>, primary_err: Seq<char>, fallback_err: Seq<char>) -> Seq<char> {
    if stream {
        "Primary stream ("@ + primary + ") and fallback stream ("@ + fallback + ") failed. Primary error: "@ + primary_err
            + " | Fallback error: "@ + fallback_err
    } else {
        "Primary ("@ + primary + ") and fallback ("@ + fallback + ") failed. Primary error: "@ + primary_err
            + " | Fallback error: "@ + fallback_err
    }
}

/// The error when both the model and its fallback failed.
pub fn fallback_error_message(stream: bool, primary_model: &str, fallback_model: &str, primary_err: &str, fallback_err: &str) -> (r: String)
    ensures
        r@ == fallback_error_spec(stream, primary_model@, fallback_model@, primary_err@, fallback_err@),
{
    let mut out = String::from_str(if stream { "Primary stream (" } else { "Primary (" });
    out.append(primary_model);
    out.append(if stream { ") and fallback stream (" } else { ") and fallback (" });
    out.append(fallback_model);
    out.append(") failed. Primary error: ");
    out.append(primary_err);
    out.append(" | Fallback error: ");
    out.append(fallback_err);
    out
}

/// Whether a reply's content type, lowercased in ASCII, announces an event
/// stream.
pub open spec fn is_event_stream_spec(content_type: Option<Seq<char>>) -> bool {
    content_type matches Some(t) && seq_contains(t.map_values(|c: char| ascii_lower(c)), "text/event-stream"@)
}

/// Whether a reply's content type announces an event stream.
pub fn is_event_stream(content_type: Option<&str>) -> (r: bool)
    ensures
        r == is_event_stream_spec(match content_type { Some(t) => Some(t@), None => None }),
{
    match content_type {
        Some(t) => {
            let cs = chars_of(t);
            let mut lowered: Vec<char> = Vec::new();
            let mut i: usize = 0;
            while i < cs.len()
                invariant
                    i <= cs.len(),
                    lowered@ == cs@.take(i as int).map_values(|c: char| ascii_lower(c)),
                decreases cs.len() - i,
            {
                lowered.push(to_ascii_lowercase(cs[i]));
                assert(cs@.take(i as int + 1).map_values(|c: char| ascii_lower(c))
                    =~= cs@.take(i as int).map_values(|c: char| ascii_lower(c)).push(ascii_lower(cs@[i as int])));
                i += 1;
            }
            assert(cs@.take(cs.len() as int) =~= cs@);
            contains(&lowered, "text/event-stream")
        },
        None => false,
    }
}

} // verus!
