use howto::config::{Config, LlmBackend, OllamaConfig, OpenAIConfig, SelectedBackend};
use howto::encode::{chat_body_one, chat_body_two, chat_body_two_temp, generate_body};
use howto::llm::BackendError;
use howto::prompt::{chat_alias_user, chat_translate_system, generate_alias_prompt,
    generate_explain_prompt, generate_translate_prompt};

#[test]
fn generate_body_exact() {
    assert_eq!(
        generate_body("m", "p"),
        "{\"model\":\"m\",\"prompt\":\"p\",\"stream\":false}"
    );
}

#[test]
fn generate_body_escapes_prompt() {
    let b = generate_body("m", "say \"hi\"\nplease\\now");
    assert_eq!(
        b,
        "{\"model\":\"m\",\"prompt\":\"say \\\"hi\\\"\\nplease\\\\now\",\"stream\":false}"
    );
}

#[test]
fn generate_body_escapes_control_characters() {
    let b = generate_body("m", "a\tb\u{1}c");
    assert_eq!(b, "{\"model\":\"m\",\"prompt\":\"a\\tb\\u0001c\",\"stream\":false}");
}

#[test]
fn chat_bodies_exact() {
    assert_eq!(
        chat_body_one("m", "sys"),
        "{\"model\":\"m\",\"messages\":[{\"role\":\"system\",\"content\":\"sys\"}]}"
    );
    assert_eq!(
        chat_body_two("m", "sys", "usr"),
        "{\"model\":\"m\",\"messages\":[{\"role\":\"system\",\"content\":\"sys\"},{\"role\":\"user\",\"content\":\"usr\"}]}"
    );
    assert_eq!(
        chat_body_two_temp("m", "sys", "usr"),
        "{\"model\":\"m\",\"messages\":[{\"role\":\"system\",\"content\":\"sys\"},{\"role\":\"user\",\"content\":\"usr\"}],\"temperature\":0.7}"
    );
}

#[test]
fn request_bodies_are_valid_json() {
    let b = generate_body("model-x", "a \"quoted\" prompt\nwith\tlines\\and\u{2} controls");
    let v: serde_json::Value = serde_json::from_str(&b).expect("body must be valid JSON");
    assert_eq!(
        v.get("prompt").unwrap().as_str().unwrap(),
        "a \"quoted\" prompt\nwith\tlines\\and\u{2} controls"
    );
    assert_eq!(v.get("stream").unwrap().as_bool(), Some(false));
}

#[test]
fn translate_prompt_without_failures() {
    let p = generate_translate_prompt("my ctx", "my query", &Vec::new());
    assert!(p.starts_with("You are a command-line assistant."));
    assert!(p.contains("Details about user's environment: my ctx. RESPOND ONLY"));
    assert!(p.ends_with("Here's the query: my query"));
    assert!(!p.contains("Previous attempts failed"));
}

#[test]
fn translate_prompt_lists_failures_verbatim() {
    let failed = vec!["bad one".to_string(), "bad two".to_string()];
    let p = generate_translate_prompt("ctx", "query", &failed);
    assert!(p.contains(
        "\n\nPrevious attempts failed to generate valid JSON. Here are the failed responses:\n"
    ));
    assert!(p.contains("\nAttempt 1: bad one\n"));
    assert!(p.contains("\nAttempt 2: bad two\n"));
    assert!(p.ends_with("\nPlease ensure your response is a valid JSON array."));
}

#[test]
fn alias_prompt_names_command_and_context() {
    let p = generate_alias_prompt("git status", "my ctx", &Vec::new());
    assert!(p.starts_with("You are a command-line expert. Only For the command 'git status', "));
    assert!(p.contains("but only when applicable: my ctx. IMPORTANT:"));
    assert!(p.ends_with("DO NOT INCLUDE ANYTHING ELSE BESIDE JSON."));
}

#[test]
fn explain_prompt_exact() {
    let p = generate_explain_prompt("ls -la", "my ctx");
    assert_eq!(
        p,
        "You are a command-line expert. Explain briefly what this command does: 'ls -la'. Consider the following context about the user's environment: my ctx. Keep it brief to a paragraph."
    );
}

#[test]
fn chat_prompts_carry_feedback() {
    let failed = vec!["junk".to_string()];
    let sys = chat_translate_system("ctx", &failed);
    assert!(sys.contains("\nAttempt 1: junk\n"));
    let usr = chat_alias_user("git status", &failed);
    assert!(usr.starts_with("For the command 'git status', suggest up to 5 useful aliases"));
    assert!(usr.contains("\nAttempt 1: junk\n"));
}

#[test]
fn default_config_values() {
    let c = Config::default();
    assert!(matches!(c.backend, LlmBackend::Ollama));
    let openai = c.openai.unwrap();
    assert_eq!(openai.api_key, "your-openai-api-key-here");
    assert_eq!(openai.model, "gpt-3.5-turbo");
    let ollama = c.ollama.unwrap();
    assert_eq!(ollama.endpoint, "http://localhost:11434");
    assert_eq!(ollama.model, "llama3.2");
    assert_eq!(c.additional_context, "running macos and generally zsh, is a developer, and uses brew");
}

#[test]
fn select_backend_builds_the_selected_one() {
    let c = Config {
        backend: LlmBackend::Ollama,
        openai: None,
        ollama: Some(OllamaConfig { endpoint: "http://h:1".to_string(), model: "m".to_string() }),
        additional_context: String::new(),
    };
    assert!(matches!(c.select_backend(), Ok(SelectedBackend::Ollama(_))));
    let c = Config {
        backend: LlmBackend::OpenAI,
        openai: Some(OpenAIConfig { api_key: "k".to_string(), model: "m".to_string() }),
        ollama: None,
        additional_context: String::new(),
    };
    assert!(matches!(c.select_backend(), Ok(SelectedBackend::OpenAI(_))));
}

#[test]
fn select_backend_reports_missing_sections() {
    let c = Config {
        backend: LlmBackend::OpenAI,
        openai: None,
        ollama: None,
        additional_context: String::new(),
    };
    match c.select_backend() {
        Err(e) => assert_eq!(e, "OpenAI config missing"),
        Ok(_) => panic!("a missing OpenAI section must be an error"),
    }
    let c = Config {
        backend: LlmBackend::Ollama,
        openai: None,
        ollama: None,
        additional_context: String::new(),
    };
    match c.select_backend() {
        Err(e) => assert_eq!(e, "Ollama config missing"),
        Ok(_) => panic!("a missing Ollama section must be an error"),
    }
}

#[test]
fn backend_error_messages() {
    let e = BackendError::Transport("no route".to_string());
    assert_eq!(e.message(), "Failed to send request: no route");
    let e = BackendError::Format("bad envelope".to_string());
    assert_eq!(e.message(), "Failed to parse response: bad envelope");
}
