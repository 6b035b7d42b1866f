//! Provider clients: construction, capability probing, rate-limit decisions,
//! and decoding of a provider's answer into a chat response.
use vstd::prelude::*;
use vstd::string::*;
use crate::chat::{ChatResponse, SupportedFeatures, Usage};
use crate::error::GeneratorError;
use crate::invocation::{decode_tool_call, decoded, json_arguments_of, Invocation};
use crate::ratelimit::{on_provider_error, retry_decision, retry_hint_of, RetryDecision};
use crate::text::{contains, occurs_in};

verus! {

/// A client of an OpenAI-compatible REST endpoint.
#[derive(Debug, Clone)]
pub struct OpenAIClient {
    pub model: String,
    pub endpoint: String,
    pub api_key: String,
}

impl OpenAIClient {
    /// A client authenticated with the key read from the variable
    /// `api_key_env` (`api_key` is what that variable holds, if set).
    pub fn custom(model: &str, api_key_env: &str, api_key: Option<String>, endpoint: &str) -> (r: Result<Self, GeneratorError>)
        ensures
            match api_key {
                None => r matches Err(GeneratorError::AuthMissing(v)) && v@ == api_key_env@,
                Some(k) => r matches Ok(c) && c.model@ == model@ && c.endpoint@ == endpoint@ && c.api_key == k,
            },
    {
        match api_key {
            None => Err(GeneratorError::AuthMissing(String::from_str(api_key_env))),
            Some(k) => Ok(OpenAIClient { model: String::from_str(model), endpoint: String::from_str(endpoint), api_key: k }),
        }
    }

    /// A client that sends an empty key.
    pub fn custom_no_auth(model: &str, endpoint: &str) -> (r: Result<Self, GeneratorError>)
        ensures
            r matches Ok(c) && c.model@ == model@ && c.endpoint@ == endpoint@ && c.api_key@.len() == 0,
    {
        Ok(OpenAIClient { model: String::from_str(model), endpoint: String::from_str(endpoint), api_key: String::new() })
    }

    /// The client of the OpenAI service; `api_key` is what `OPENAI_API_KEY`
    /// holds, if set.
    pub fn new(endpoint: &str, port: u16, model_name: &str, context_size: u32, api_key: Option<String>) -> (r: Result<Self, GeneratorError>)
        ensures
            match api_key {
                None => r matches Err(GeneratorError::AuthMissing(v)) && v@ == "OPENAI_API_KEY"@,
                Some(k) => r matches Ok(c) && c.model@ == model_name@ && c.endpoint@ == "https://api.openai.com/v1/"@
                    && c.api_key == k,
            },
    {
        Self::custom(model_name, "OPENAI_API_KEY", api_key, "https://api.openai.com/v1/")
    }
}

/// A client of the DeepSeek service, which speaks the OpenAI protocol.
#[derive(Debug, Clone)]
pub struct DeepSeekClient {
    pub client: OpenAIClient,
}

impl DeepSeekClient {
    /// `api_key` is what `DEEPSEEK_API_KEY` holds, if set.
    pub fn new(endpoint: &str, port: u16, model_name: &str, context_size: u32, api_key: Option<String>) -> (r: Result<Self, GeneratorError>)
        ensures
            match api_key {
                None => r matches Err(GeneratorError::AuthMissing(v)) && v@ == "DEEPSEEK_API_KEY"@,
                Some(k) => r matches Ok(c) && c.client.model@ == model_name@
                    && c.client.endpoint@ == "https://api.deepseek.com/v1/"@ && c.client.api_key == k,
            },
    {
        match OpenAIClient::custom(model_name, "DEEPSEEK_API_KEY", api_key, "https://api.deepseek.com/v1/") {
            Ok(client) => Ok(DeepSeekClient { client }),
            Err(e) => Err(e),
        }
    }
}

/// A client of the Groq service.
#[derive(Debug, Clone)]
pub struct GroqClient {
    pub model: String,
    pub api_key: String,
}

impl GroqClient {
    /// `api_key` is what `GROQ_API_KEY` holds, if set.
    pub fn new(endpoint: &str, port: u16, model_name: &str, context_size: u32, api_key: Option<String>) -> (r: Result<Self, GeneratorError>)
        ensures
            match api_key {
                None => r matches Err(GeneratorError::AuthMissing(v)) && v@ == "GROQ_API_KEY"@,
                Some(k) => r matches Ok(c) && c.model@ == model_name@ && c.api_key == k,
            },
    {
        match api_key {
            None => Err(GeneratorError::AuthMissing(String::from_str("GROQ_API_KEY"))),
            Some(k) => Ok(GroqClient { model: String::from_str(model_name), api_key: k }),
        }
    }
}

impl GroqClient {
    /// Groq offers no embeddings endpoint: embedding always fails with
    /// `NotImplemented`.
    pub fn embed_error(&self) -> (r: GeneratorError)
        ensures
            r matches GeneratorError::NotImplemented(m) && m@ == "groq embeddings generation not yet implemented"@,
    {
        GeneratorError::NotImplemented(String::from_str("groq embeddings generation not yet implemented"))
    }
}

/// Accepts only a non-streaming answer (`Some`); a streamed one (`None`)
/// fails with the distinct `Unsupported` error, so that callers can tell a
/// capability gap from a transient failure.
pub fn non_streamed<T>(answer: Option<T>) -> (r: Result<T, GeneratorError>)
    ensures
        match answer {
            Some(v) => r == Ok::<T, GeneratorError>(v),
            None => r matches Err(GeneratorError::Unsupported(m)) && m@ == "streaming is not supported"@,
        },
{
    match answer {
        Some(v) => Ok(v),
        None => Err(GeneratorError::Unsupported(String::from_str("streaming is not supported"))),
    }
}

/// The provider error text by which a model refuses a system turn.
pub open spec fn rejects_system_role(error: Seq<char>) -> bool {
    occurs_in(error, "unsupported_value"@) && occurs_in(error, "does not support 'system' with this model"@)
}

/// What an OpenAI-compatible trial completion shows: tool support where its
/// first choice holds at least one tool call; system-prompt support unless
/// the error says that the model rejects a system turn.
pub open spec fn openai_features_of(trial: Result<bool, String>) -> SupportedFeatures {
    match trial {
        Ok(true) => SupportedFeatures { system_prompt: true, tools: true },
        Ok(false) => SupportedFeatures { system_prompt: true, tools: false },
        Err(e) => SupportedFeatures { system_prompt: !rejects_system_role(e@), tools: false },
    }
}

/// Reads the trial completion: `Ok(called)` where it succeeded (`called`:
/// its first choice holds a tool call), `Err(text)` with the provider error.
pub fn openai_features(trial: &Result<bool, String>) -> (r: SupportedFeatures)
    ensures
        r == openai_features_of(*trial),
{
    match trial {
        Ok(called) => SupportedFeatures { system_prompt: true, tools: *called },
        Err(e) => {
            let rejects = contains(e.as_str(), "unsupported_value") && contains(
                e.as_str(),
                "does not support 'system' with this model",
            );
            SupportedFeatures { system_prompt: !rejects, tools: false }
        },
    }
}

/// What a Groq trial completion shows: tool support where it succeeded and
/// its answer holds at least one tool call (`trial` is `Some(called)` for a
/// success, `None` for a failure); a system prompt is always accepted.
pub fn groq_features(trial: Option<bool>) -> (r: SupportedFeatures)
    ensures
        r == (SupportedFeatures { system_prompt: true, tools: trial == Some(true) }),
{
    let tools = match trial {
        Some(called) => called,
        None => false,
    };
    SupportedFeatures { system_prompt: true, tools }
}

/// The decision on a Groq error: only a 429 (rate limited) is retried.
pub fn groq_error_decision(code: u16, message: &str, attempts: u32, max_retries: u32) -> (r: RetryDecision)
    ensures
        code != 429 ==> r == RetryDecision::GiveUp,
        code == 429 ==> r == retry_decision(retry_hint_of(message@), attempts, max_retries),
{
    if code != 429 {
        RetryDecision::GiveUp
    } else {
        on_provider_error(message, attempts, max_retries)
    }
}

/// The argument mapping of a tool call as returned (function name, argument
/// text if any): what its text parses to, or no arguments where it has none.
pub open spec fn call_arguments(c: (String, Option<String>)) -> Option<Map<Seq<char>, Seq<char>>> {
    match c.1 {
        Some(a) => json_arguments_of(a@),
        None => Some(Map::empty()),
    }
}

/// Whether every tool call's arguments parse.
pub open spec fn all_parse(calls: Seq<(String, Option<String>)>) -> bool {
    forall|i: int| 0 <= i < calls.len() ==> (#[trigger] call_arguments(calls[i])) is Some
}

/// Whether `v` holds, in order, the invocations that `calls` decode to.
pub open spec fn decodes_to(calls: Seq<(String, Option<String>)>, v: Seq<Invocation>) -> bool {
    v.len() == calls.len() && forall|i: int| 0 <= i < calls.len() ==> (#[trigger] v[i])@ == decoded(
        calls[i].0@,
        call_arguments(calls[i])->0,
    )
}

/// Decodes the tool calls of a provider answer, in order; fails as
/// unparseable where any call's arguments are not a JSON object.
pub fn decode_tool_calls(calls: &Vec<(String, Option<String>)>) -> (r: Result<Vec<Invocation>, GeneratorError>)
    ensures
        r is Ok <==> all_parse(calls@),
        r matches Ok(v) ==> decodes_to(calls@, v@),
        r matches Err(e) ==> e == GeneratorError::Unparseable,
{
    let mut out: Vec<Invocation> = Vec::new();
    let mut i: usize = 0;
    while i < calls.len()
        invariant
            i <= calls.len(),
            forall|k: int| 0 <= k < i ==> (#[trigger] call_arguments(calls@[k])) is Some,
            decodes_to(calls@.take(i as int), out@),
        decreases calls.len() - i,
    {
        let name = calls[i].0.as_str();
        let inv = match &calls[i].1 {
            Some(args) => match decode_tool_call(name, args.as_str()) {
                Ok(inv) => inv,
                Err(e) => {
                    assert(call_arguments(calls@[i as int]) is None);
                    return Err(e);
                },
            },
            None => {
                let none: Vec<(String, String)> = Vec::new();
                assert(crate::invocation::pairs_map(none@) =~= Map::<Seq<char>, Seq<char>>::empty());
                crate::invocation::invocation_from_arguments(name, &none)
            },
        };
        out.push(inv);
        assert(calls@.take(i + 1).drop_last() =~= calls@.take(i as int));
        assert forall|k: int| 0 <= k < i + 1 implies (#[trigger] out@[k])@ == decoded(
            calls@.take(i + 1)[k].0@,
            call_arguments(calls@.take(i + 1)[k])->0,
        ) by {
            if k < i {
                assert(calls@.take(i + 1)[k] == calls@.take(i as int)[k]);
            }
        }
        i = i + 1;
    }
    assert(calls@.take(calls.len() as int) =~= calls@);
    Ok(out)
}

/// The token counters of an OpenAI-compatible answer: present where the
/// prompt count is, with a missing completion count read as 0.
pub fn openai_usage(prompt_tokens: Option<u32>, completion_tokens: Option<u32>) -> (r: Option<Usage>)
    ensures
        match prompt_tokens {
            None => r is None,
            Some(p) => r == Some(Usage {
                input_tokens: p,
                output_tokens: match completion_tokens {
                    Some(c) => c,
                    None => 0,
                },
            }),
        },
{
    match prompt_tokens {
        None => None,
        Some(p) => Some(Usage {
            input_tokens: p,
            output_tokens: match completion_tokens {
                Some(c) => c,
                None => 0,
            },
        }),
    }
}

/// Builds the chat response of a provider answer: its text (empty where it
/// has none), its decoded tool calls and its token counters.
pub fn chat_response(content: Option<String>, calls: &Vec<(String, Option<String>)>, usage: Option<Usage>) -> (r: Result<ChatResponse, GeneratorError>)
    ensures
        r is Ok <==> all_parse(calls@),
        r matches Ok(resp) ==> decodes_to(calls@, resp.invocations@) && resp.usage == usage && resp.content@ == match content {
            Some(c) => c@,
            None => Seq::<char>::empty(),
        },
        r matches Err(e) ==> e == GeneratorError::Unparseable,
{
    let invocations = match decode_tool_calls(calls) {
        Ok(v) => v,
        Err(e) => return Err(e),
    };
    let content = match content {
        Some(c) => c,
        None => String::new(),
    };
    Ok(ChatResponse { content, invocations, usage })
}

/// The embedding of an embeddings answer: the first item's vector (empty
/// where that item has none); an answer without items is a provider error.
pub fn first_embedding<T>(data: Option<Vec<Option<Vec<T>>>>) -> (r: Result<Vec<T>, GeneratorError>)
    ensures
        match data {
            Some(items) => if items@.len() > 0 {
                match items@[0] {
                    Some(v) => r == Ok::<Vec<T>, GeneratorError>(v),
                    None => r matches Ok(v) && v@.len() == 0,
                }
            } else {
                r matches Err(GeneratorError::Provider(m)) && m@ == "no embeddings returned"@
            },
            None => r matches Err(GeneratorError::Provider(m)) && m@ == "no embeddings returned"@,
        },
{
    match data {
        Some(mut items) => {
            if items.len() > 0 {
                match items.remove(0) {
                    Some(v) => Ok(v),
                    None => Ok(Vec::new()),
                }
            } else {
                Err(GeneratorError::Provider(String::from_str("no embeddings returned")))
            }
        },
        None => Err(GeneratorError::Provider(String::from_str("no embeddings returned"))),
    }
}

} // verus!
