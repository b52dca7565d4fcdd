use nemollm::completion::{Completion, CompletionConfig, CompletionRequest, CompletionResponse};
use nemollm::number::Float64;
use nemollm::transport::{accept, post, resolve_token};

#[test]
fn completion_question() {
    let c = Completion::new(
        CompletionConfig { tokens_to_generate: Some(3), ..Default::default() },
        "llama-2-70b-hf".to_string(),
        None,
    )
    .unwrap();
    let prompt = "Q: What is the capital of Spain? \
             A: Madrid \
             \
             Q: What is synthetic biology? \
             A: Synthetic Biology is about designing biological systems at multiple levels from individual molecules up to whole cells and even multicellular assemblies like tissues and organs to perform specific functions. \
             \
             Q: How far is the Sun from the Earth? \
             A:  93 million miles \
             \
             Q: What is the deepest part of the ocean? \
             A: The Mariana Trench \
             \
             Q: What is the capital of India? \
             A:".to_string();
    let call = c.prepare(prompt.clone());
    assert_eq!(call.endpoint, "https://api.llm.ngc.nvidia.com/v1/models/llama-2-70b-hf/completions");
    assert_eq!(call.body.prompt, prompt);
    assert_eq!(call.body.config.tokens_to_generate, Some(3));
    assert_eq!(call.token, None);
    let token = resolve_token(call.token, Some("from-env".to_string())).unwrap();
    let request = post(call.endpoint, &token).unwrap();
    assert_eq!(request.headers[1].value, "Bearer from-env");
    // The exchange itself is scripted: the service answers with the text.
    let text = accept(200, "New Delhi".to_string()).unwrap();
    let response = CompletionResponse {
        text,
        cumlogprobs: Float64::zero(),
        logprobs: None,
        prompt_labels: vec![],
        completion_labels: vec![],
        completions: None,
        citations: None,
    };
    assert_eq!(response.text, "New Delhi");
}

#[test]
fn defaults_are_greedy_and_unconstrained() {
    let d = CompletionConfig::default();
    assert_eq!(f64::from_bits(d.temperature.to_bits()), 1.0);
    assert_eq!(f64::from_bits(d.top_p.to_bits()), 1.0);
    assert_eq!(f64::from_bits(d.repetition_penalty.to_bits()), 1.0);
    assert_eq!(f64::from_bits(d.beam_search_diversity_rate.to_bits()), 0.0);
    assert_eq!(f64::from_bits(d.length_penalty.to_bits()), 0.0);
    assert_eq!(d.top_k, 1);
    assert_eq!(d.beam_width, 1);
    assert_eq!(d.random_seed, 0);
    assert_eq!(d.tokens_to_generate, None);
    assert_eq!(d.guardrail, None);
    assert_eq!(d.steer_lm, None);
    assert!(d.stop.is_empty());
    assert!(d.left_space_trim);
    assert!(!d.logprobs);
}

#[test]
fn float_bits_are_those_of_the_numbers() {
    assert_eq!(Float64::one().to_bits(), 1.0f64.to_bits());
    assert_eq!(Float64::zero().to_bits(), 0.0f64.to_bits());
    assert_eq!(Float64::from_bits(2.5f64.to_bits()).to_bits(), 2.5f64.to_bits());
    assert_eq!(Float64::from_bits(7), Float64 { bits: 7 });
}

#[test]
fn set_token_replaces_the_token_only() {
    let config = CompletionConfig { top_k: 4, ..Default::default() };
    let c = Completion::new(config.clone(), "m".to_string(), Some("old".to_string())).unwrap();
    let c = c.set_token("new".to_string());
    assert_eq!(c.token(), &Some("new".to_string()));
    assert_eq!(c.model(), "m");
    assert_eq!(c.config(), &config);
    let call = c.prepare("p".to_string());
    assert_eq!(call.token, Some("new".to_string()));
}

#[test]
fn a_new_request_is_tied_to_no_knowledge_base() {
    let r = CompletionRequest::new("hello".to_string(), CompletionConfig::default());
    assert_eq!(r.prompt, "hello");
    assert_eq!(r.config, CompletionConfig::default());
    assert!(r.knowledge_base_ids.is_empty());
    assert_eq!(r.citation_count, None);
}

#[test]
fn prepare_merges_config_and_prompt() {
    let config = CompletionConfig {
        stop: vec!["\n".to_string()],
        guardrail: Some("strict".to_string()),
        ..Default::default()
    };
    let c = Completion::new(config.clone(), "gpt-43b-002".to_string(), Some("t".to_string())).unwrap();
    let call = c.prepare("Once".to_string());
    assert_eq!(call.endpoint, "https://api.llm.ngc.nvidia.com/v1/models/gpt-43b-002/completions");
    assert_eq!(call.body, CompletionRequest::new("Once".to_string(), config));
    assert_eq!(call.token, Some("t".to_string()));
}
