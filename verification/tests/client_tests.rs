use fae_agent::client::{api_error_message, LLMClient, OllamaClient, OpenAIClient, StreamBackend};
use fae_agent::messages::ChatMessage;
use fae_agent::stream::OllamaRequest;

#[test]
fn test_llm_client_openai_creation() {
    let client = LLMClient::new(
        "https://api.openai.com/v1".to_string(),
        "openai".to_string(),
        "test-key".to_string(),
    );

    assert_eq!(client.provider_type(), "openai");
    assert!(matches!(client.stream_backend(), Ok(StreamBackend::OpenAI(_))));
    assert!(client.chat_backend().is_err());
}

#[test]
fn test_llm_client_ollama_creation() {
    let client = LLMClient::new(
        "http://localhost:11434".to_string(),
        "ollama".to_string(),
        String::new(),
    );

    assert_eq!(client.provider_type(), "ollama");
    assert!(matches!(client.stream_backend(), Ok(StreamBackend::Ollama(_))));
    assert!(client.chat_backend().is_ok());
}

#[test]
fn test_llm_client_other_provider() {
    let client = LLMClient::new(
        "http://localhost:11434".to_string(),
        "other".to_string(),
        String::new(),
    );

    assert_eq!(client.provider_type(), "other");
    assert!(matches!(client.stream_backend(), Ok(StreamBackend::Ollama(_))));
    assert!(client.chat_backend().is_ok());
}

#[test]
fn test_ollama_client_creation() {
    let client = OllamaClient::new("http://localhost:11434".to_string());
    assert_eq!(client.base_url(), "http://localhost:11434");
}

#[test]
fn test_ollama_client_default_url() {
    let client = OllamaClient::new("http://127.0.0.1:11434".to_string());
    assert!(client.base_url().contains("11434"));
}

#[test]
fn test_ollama_request_for_stream() {
    let request: OllamaRequest = OllamaClient::request(
        "llama2",
        vec![ChatMessage {
            role: "user".to_string(),
            content: "test".to_string(),
            tool_calls: None,
        }],
        None,
        true,
    );

    assert!(request.stream);
    assert_eq!(request.model, "llama2");
}

#[test]
fn test_ollama_request_for_non_stream() {
    let request = OllamaClient::request("llama2", vec![], None, false);

    assert!(!request.stream);
}

#[test]
fn test_openai_client_creation() {
    let client = OpenAIClient::new(
        "https://api.openai.com/v1".to_string(),
        "test-key".to_string(),
    );
    assert_eq!(client.base_url(), "https://api.openai.com/v1");
    assert_eq!(client.api_key(), "test-key");
}

#[test]
fn test_openai_client_empty_key() {
    let client = OpenAIClient::new("https://api.openai.com/v1".to_string(), String::new());
    assert!(client.api_key().is_empty());
}

#[test]
fn client_urls_and_headers() {
    let ollama = OllamaClient::new("http://127.0.0.1:11434".to_string());
    assert_eq!(ollama.chat_url(), "http://127.0.0.1:11434/api/chat");
    let openai = OpenAIClient::new("https://api.openai.com/v1//".to_string(), "k".to_string());
    assert_eq!(openai.completions_url(), "https://api.openai.com/v1/chat/completions");
    assert_eq!(openai.authorization(), Some("Bearer k".to_string()));
    let anonymous = OpenAIClient::new("http://host".to_string(), String::new());
    assert_eq!(anonymous.authorization(), None);
    assert_eq!(anonymous.completions_url(), "http://host/chat/completions");
}

#[test]
fn client_error_texts() {
    assert_eq!(
        api_error_message("Ollama", "404 Not Found", "no model"),
        "Ollama API error: 404 Not Found - no model"
    );
    let client = LLMClient::new("u".to_string(), "openai".to_string(), String::new());
    match client.chat_backend() {
        Err(e) => assert_eq!(e, "Ollama client not initialized for non-streaming chat"),
        Ok(_) => panic!("an OpenAI client has no non-streaming backend"),
    }
}

#[test]
fn test_ollama_request() {
    let request = OllamaClient::request(
        "llama2",
        vec![ChatMessage {
            role: "user".to_string(),
            content: "Hello".to_string(),
            tool_calls: None,
        }],
        None,
        true,
    );

    assert_eq!(request.model, "llama2");
    assert!(request.stream);
    assert_eq!(request.messages[0].content, "Hello");
    assert!(request.tools.is_none());
}
