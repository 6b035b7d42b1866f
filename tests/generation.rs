use nerve::chat::{ChatOptions, Message, SupportedFeatures};
use nerve::error::GeneratorError;
use nerve::generator::{first_embedding, non_streamed, groq_error_decision, groq_features, openai_features, DeepSeekClient, GroqClient, OpenAIClient};
use nerve::invocation::Invocation;
use nerve::namespaces::{Action, ActionOutput, Namespace};
use nerve::ratelimit::{decide_retry, give_up_error, on_provider_error, parse_duration_ms, RetryDecision};
use nerve::registry::Registry;
use nerve::schema::{action_tool, synthesize_tools, GroqFunctionParameters};
use nerve::translate::{decimal, groq_messages, image_url, openai_messages, Role};

const LIMIT_MSG: &str = "Rate limit reached for model in organization on tokens per minute. Please try again in 12.5s. Visit https://console.groq.com/docs/rate-limits for more information.";

fn registry() -> Registry {
    let mut write = Action::new("write".to_string(), "Write a file.".to_string());
    write.example_payload = Some("hello".to_string());
    write.example_attributes = Some(vec![("path".to_string(), "/tmp/x".to_string())]);
    let plain = Action::new("plain".to_string(), "No arguments.".to_string());
    let hidden = Action::new("hidden".to_string(), "Opt-in.".to_string());
    Registry::new(vec![
        Namespace::new_default("fs".to_string(), String::new(), vec![write, plain], None),
        Namespace::new_non_default("extra".to_string(), String::new(), vec![hidden], None),
    ])
    .unwrap()
}

#[test]
fn schema_of_action_with_examples() {
    let reg = registry();
    let t = action_tool(&reg.namespaces[0].actions[0]);
    assert_eq!(t.name, "write");
    assert_eq!(t.description, "Write a file.");
    assert_eq!(t.parameters.the_type, "object");
    assert_eq!(t.parameters.required, vec!["payload".to_string(), "path".to_string()]);
    assert_eq!(t.parameters.properties.len(), 2);
    assert_eq!(t.parameters.properties[0].0, "payload");
    assert_eq!(t.parameters.properties[0].1.the_type, "string");
    assert_eq!(
        t.parameters.properties[0].1.description,
        "The main function argument, use this as a template: hello"
    );
    assert_eq!(t.parameters.properties[1].0, "path");
    assert_eq!(t.parameters.properties[1].1.description, "path");
}

#[test]
fn schema_without_examples_is_empty_object() {
    let reg = registry();
    let t = action_tool(&reg.namespaces[0].actions[1]);
    assert!(t.parameters.required.is_empty());
    assert!(t.parameters.properties.is_empty());
}

#[test]
fn synthesis_is_deterministic_and_ordered() {
    let reg = registry();
    let a = synthesize_tools(&reg, &vec![], true);
    let b = synthesize_tools(&reg, &vec![], true);
    let names: Vec<&str> = a.iter().map(|t| t.name.as_str()).collect();
    assert_eq!(names, vec!["write", "plain"]);
    assert_eq!(format!("{:?}", a), format!("{:?}", b));
    let with_extra = synthesize_tools(&reg, &vec!["extra".to_string()], true);
    assert_eq!(with_extra.len(), 3);
    assert_eq!(with_extra[2].name, "hidden");
}

#[test]
fn synthesis_off_without_native_tools() {
    let reg = registry();
    assert!(synthesize_tools(&reg, &vec![], false).is_empty());
}

#[test]
fn groq_parameters_copy_fields() {
    let reg = registry();
    let t = action_tool(&reg.namespaces[0].actions[0]);
    let g = GroqFunctionParameters::from_openai(t.parameters.clone());
    assert_eq!(g.the_type, "object");
    assert_eq!(g.required, t.parameters.required);
    assert_eq!(g.properties[1].0, "path");
    assert_eq!(g.properties[0].1.description, t.parameters.properties[0].1.description);
}

#[test]
fn retry_hint_extracted() {
    assert_eq!(on_provider_error(LIMIT_MSG, 0, 3), RetryDecision::Retry { delay_ms: 12500 });
}

#[test]
fn consecutive_rate_limits_each_retried() {
    assert_eq!(on_provider_error(LIMIT_MSG, 0, 2), RetryDecision::Retry { delay_ms: 12500 });
    assert_eq!(on_provider_error(LIMIT_MSG, 1, 2), RetryDecision::Retry { delay_ms: 12500 });
    assert_eq!(on_provider_error(LIMIT_MSG, 2, 2), RetryDecision::GiveUp);
}

#[test]
fn error_without_hint_given_up() {
    assert_eq!(on_provider_error("internal server error", 0, 3), RetryDecision::GiveUp);
    assert_eq!(decide_retry(Some("soon".to_string()), 0, 3), RetryDecision::GiveUp);
    assert_eq!(decide_retry(None, 0, 3), RetryDecision::GiveUp);
}

#[test]
fn groq_only_retries_429() {
    assert_eq!(groq_error_decision(500, LIMIT_MSG, 0, 3), RetryDecision::GiveUp);
    assert_eq!(groq_error_decision(429, LIMIT_MSG, 0, 3), RetryDecision::Retry { delay_ms: 12500 });
}

#[test]
fn durations() {
    assert_eq!(parse_duration_ms("12.5s"), Some(12500));
    assert_eq!(parse_duration_ms("7.66s"), Some(7660));
    assert_eq!(parse_duration_ms("1.23456s"), Some(1234));
    assert_eq!(parse_duration_ms("3s"), Some(3000));
    assert_eq!(parse_duration_ms("250ms"), Some(250));
    assert_eq!(parse_duration_ms("2m"), Some(120000));
    assert_eq!(parse_duration_ms("s"), None);
    assert_eq!(parse_duration_ms("1.s"), None);
    assert_eq!(parse_duration_ms("1.2.3s"), None);
    assert_eq!(parse_duration_ms("abc"), None);
    assert_eq!(parse_duration_ms("1234567890s"), None);
    assert_eq!(parse_duration_ms("1m26.4s"), Some(86400));
    assert_eq!(parse_duration_ms("2m5s"), Some(125000));
    assert_eq!(parse_duration_ms("1m2m3s"), None);
    assert_eq!(parse_duration_ms("m5s"), None);
    assert_eq!(parse_duration_ms("1m.5s"), None);
}

#[test]
fn feature_probes() {
    assert_eq!(openai_features(&Ok(true)), SupportedFeatures { system_prompt: true, tools: true });
    assert_eq!(openai_features(&Ok(false)), SupportedFeatures { system_prompt: true, tools: false });
    let refusal = "error code unsupported_value: model does not support 'system' with this model.".to_string();
    assert_eq!(openai_features(&Err(refusal)), SupportedFeatures { system_prompt: false, tools: false });
    assert_eq!(openai_features(&Err("timeout".to_string())), SupportedFeatures { system_prompt: true, tools: false });
    assert_eq!(groq_features(None), SupportedFeatures { system_prompt: true, tools: false });
    assert_eq!(groq_features(Some(false)), SupportedFeatures { system_prompt: true, tools: false });
    assert_eq!(groq_features(Some(true)), SupportedFeatures { system_prompt: true, tools: true });
}

#[test]
fn client_construction() {
    assert_eq!(
        OpenAIClient::new("", 0, "gpt", 0, None).unwrap_err(),
        GeneratorError::AuthMissing("OPENAI_API_KEY".to_string())
    );
    let c = OpenAIClient::new("", 0, "gpt", 0, Some("k".to_string())).unwrap();
    assert_eq!(c.endpoint, "https://api.openai.com/v1/");
    assert_eq!(c.model, "gpt");
    let d = DeepSeekClient::new("", 0, "ds", 0, Some("k".to_string())).unwrap();
    assert_eq!(d.client.endpoint, "https://api.deepseek.com/v1/");
    assert_eq!(
        GroqClient::new("", 0, "m", 0, None).unwrap_err(),
        GeneratorError::AuthMissing("GROQ_API_KEY".to_string())
    );
    let n = OpenAIClient::custom_no_auth("m", "http://localhost:8000/v1/").unwrap();
    assert_eq!(n.api_key, "");
}

fn options() -> ChatOptions {
    let call = Invocation::new("read".to_string(), None, Some("/etc/hosts".to_string()));
    ChatOptions {
        system_prompt: Some("  be brief  ".to_string()),
        prompt: " do it ".to_string(),
        history: vec![
            Message::Agent(" calling ".to_string(), Some(call.clone())),
            Message::Feedback(ActionOutput::Text("   ".to_string()), Some(call.clone())),
            Message::Feedback(ActionOutput::image("abc".to_string(), "image/png".to_string()), Some(call)),
            Message::Feedback(ActionOutput::image("https://x/y.png".to_string(), "image/png".to_string()), None),
        ],
    }
}

#[test]
fn openai_history_translation() {
    let m = openai_messages(&options());
    assert_eq!(m.len(), 6);
    assert_eq!(m[0].role, Role::System);
    assert_eq!(m[0].content.as_deref(), Some("be brief"));
    assert_eq!(m[1].role, Role::User);
    assert_eq!(m[1].content.as_deref(), Some("do it"));
    assert_eq!(m[2].role, Role::Assistant);
    assert_eq!(m[2].content.as_deref(), Some("calling"));
    assert_eq!(m[3].content.as_deref(), Some("<no output>"));
    assert_eq!(m[4].role, Role::User);
    assert!(m[4].content.is_none());
    assert_eq!(m[4].image_url.as_deref(), Some("data:image/png;base64,abc"));
    assert_eq!(m[5].image_url.as_deref(), Some("https://x/y.png"));
    assert!(m.iter().all(|t| t.role != Role::Tool));
}

#[test]
fn groq_history_translation() {
    let m = groq_messages(&options());
    assert_eq!(m.len(), 6);
    assert_eq!(m[2].role, Role::Assistant);
    assert_eq!(m[2].tool_call_id.as_deref(), Some("read-0"));
    assert_eq!(m[3].role, Role::Tool);
    assert_eq!(m[3].tool_call_id.as_deref(), Some("read-0"));
    assert_eq!(m[4].role, Role::User);
    assert!(m[4].content.is_none());
    assert_eq!(m[4].image_url.as_deref(), Some("data:image/png;base64,abc"));
    assert_eq!(m[4].tool_call_id.as_deref(), Some("read-0"));
    assert_eq!(m[5].image_url.as_deref(), Some("https://x/y.png"));
    assert!(m[5].tool_call_id.is_none());
}

#[test]
fn image_references() {
    assert_eq!(image_url(&"http://a".to_string(), &"image/jpeg".to_string()), "http://a");
    assert_eq!(image_url(&"QUJD".to_string(), &"image/jpeg".to_string()), "data:image/jpeg;base64,QUJD");
}

#[test]
fn decimal_digits() {
    assert_eq!(decimal(0), "0");
    assert_eq!(decimal(7), "7");
    assert_eq!(decimal(120), "120");
    assert_eq!(decimal(u64::MAX), u64::MAX.to_string());
}

#[test]
fn exhausted_budget_is_rate_limited() {
    assert_eq!(give_up_error(LIMIT_MSG.to_string(), 3, 3), GeneratorError::RateLimited(LIMIT_MSG.to_string()));
    assert_eq!(give_up_error("bad request".to_string(), 3, 3), GeneratorError::Provider("bad request".to_string()));
    assert_eq!(give_up_error(LIMIT_MSG.to_string(), 0, 3), GeneratorError::Provider(LIMIT_MSG.to_string()));
}

#[test]
fn groq_second_call_pairs_with_its_result() {
    let a = Invocation::new("a".to_string(), None, None);
    let b = Invocation::new("b".to_string(), None, None);
    let o = ChatOptions {
        system_prompt: None,
        prompt: "p".to_string(),
        history: vec![
            Message::Agent("1".to_string(), Some(a.clone())),
            Message::Feedback(ActionOutput::Text("r1".to_string()), Some(a)),
            Message::Agent("2".to_string(), Some(b.clone())),
            Message::Feedback(ActionOutput::Text("r2".to_string()), Some(b)),
        ],
    };
    let m = groq_messages(&o);
    assert_eq!(m[1].tool_call_id.as_deref(), Some("a-0"));
    assert_eq!(m[2].tool_call_id.as_deref(), Some("a-0"));
    assert_eq!(m[3].tool_call_id.as_deref(), Some("b-1"));
    assert_eq!(m[4].tool_call_id.as_deref(), Some("b-1"));
}

#[test]
fn streaming_and_embedding_gaps_are_distinct_errors() {
    assert_eq!(non_streamed(Some(5)), Ok(5));
    assert!(matches!(non_streamed::<u8>(None), Err(GeneratorError::Unsupported(_))));
    let g = GroqClient::new("", 0, "m", 0, Some("k".to_string())).unwrap();
    assert!(matches!(g.embed_error(), GeneratorError::NotImplemented(_)));
}

#[test]
fn schema_parameter_names_are_distinct() {
    let mut a = Action::new("dup".to_string(), "d".to_string());
    a.example_payload = Some("p".to_string());
    a.example_attributes = Some(vec![
        ("payload".to_string(), "x".to_string()),
        ("k".to_string(), "1".to_string()),
        ("k".to_string(), "2".to_string()),
    ]);
    let t = action_tool(&a);
    assert_eq!(t.parameters.required, vec!["payload".to_string(), "k".to_string()]);
    assert_eq!(t.parameters.properties.len(), 2);
    assert_eq!(
        t.parameters.properties[0].1.description,
        "The main function argument, use this as a template: p"
    );
    assert_eq!(t.parameters.properties[1].0, "k");
}

#[test]
fn compound_hint_retried() {
    let msg = "Rate limit reached. Please try again in 1m26.4s. Visit https://console.groq.com/docs/rate-limits";
    assert_eq!(on_provider_error(msg, 0, 1), RetryDecision::Retry { delay_ms: 86400 });
}

#[test]
fn prompt_trimmed_of_unicode_white_space() {
    let o = ChatOptions {
        system_prompt: None,
        prompt: "\u{3000}\t ask \u{a0}\n".to_string(),
        history: vec![Message::Agent("\u{2003}x y\u{85}".to_string(), None)],
    };
    let m = openai_messages(&o);
    assert_eq!(m[0].content.as_deref(), Some("ask"));
    assert_eq!(m[1].content.as_deref(), Some("x y"));
}

#[test]
fn embedding_answer_reading() {
    let v: Vec<f64> = vec![0.5, 0.25];
    assert_eq!(first_embedding(Some(vec![Some(v.clone()), None])), Ok(v));
    assert_eq!(first_embedding::<f64>(Some(vec![None])), Ok(vec![]));
    assert_eq!(
        first_embedding::<f64>(Some(vec![])),
        Err(GeneratorError::Provider("no embeddings returned".to_string()))
    );
    assert!(first_embedding::<f64>(None).is_err());
}
