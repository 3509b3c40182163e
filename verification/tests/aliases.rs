use howto::alias::scope_aliases;
use howto::llm::{BackendError, LLMBackend, Transport, TransportRequest};
use howto::ollama::OllamaBackend;
use howto::openai::OpenAIBackend;
use howto::response::{CommandOption, ResponseType};

struct MockTransport {
    replies: Vec<Result<String, String>>,
    calls: usize,
    bodies: Vec<String>,
    urls: Vec<String>,
    tokens: Vec<Option<String>>,
}

impl MockTransport {
    fn new(replies: Vec<Result<String, String>>) -> Self {
        MockTransport {
            replies,
            calls: 0,
            bodies: Vec::new(),
            urls: Vec::new(),
            tokens: Vec::new(),
        }
    }
}

impl Transport for MockTransport {
    fn send(&mut self, request: &TransportRequest) -> Result<String, String> {
        self.bodies.push(request.body.clone());
        self.urls.push(request.url.clone());
        self.tokens.push(request.bearer_token.clone());
        let i = if self.calls < self.replies.len() { self.calls } else { self.replies.len() - 1 };
        self.calls += 1;
        self.replies[i].clone()
    }
}

fn generate_envelope(payload: &str) -> String {
    format!("{{\"response\":{}}}", serde_json::to_string(payload).unwrap())
}

fn chat_envelope(payload: &str) -> String {
    format!(
        "{{\"choices\":[{{\"message\":{{\"content\":{}}}}}]}}",
        serde_json::to_string(payload).unwrap()
    )
}

fn opt(command: &str, confidence: u32) -> CommandOption {
    CommandOption {
        command: command.to_string(),
        explanation: "x".to_string(),
        confidence,
    }
}

const MIXED_ALIASES: &str = "[{\"command\":\"alias gs='git status'\",\"explanation\":\"short status\",\"confidence\":0.9},{\"command\":\"alias ll='ls -la'\",\"explanation\":\"long listing\",\"confidence\":1.0}]";

#[test]
fn scope_filter_keeps_only_matching_base() {
    let kept = scope_aliases(
        "git status",
        vec![opt("alias gs='git status'", 90), opt("alias ll='ls -la'", 100)],
    );
    assert_eq!(kept.len(), 1);
    assert_eq!(kept[0].command, "alias gs='git status'");
}

#[test]
fn scope_filter_matches_whole_words_only() {
    let kept = scope_aliases("git status", vec![opt("alias d='digit thing'", 90)]);
    assert!(kept.is_empty());
}

#[test]
fn scope_filter_keeps_order() {
    let kept = scope_aliases(
        "ls",
        vec![opt("alias l='ls'", 90), opt("alias x='cat'", 90), opt("alias ll='ls -la'", 80)],
    );
    assert_eq!(kept.len(), 2);
    assert_eq!(kept[0].command, "alias l='ls'");
    assert_eq!(kept[1].command, "alias ll='ls -la'");
}

#[test]
fn scope_filter_empty_base_keeps_nothing() {
    let kept = scope_aliases("   ", vec![opt("alias l='ls'", 90)]);
    assert!(kept.is_empty());
}

#[test]
fn suggest_aliases_scopes_to_command() {
    let backend = OllamaBackend::new("http://localhost:11434".to_string(), None);
    let mut transport = MockTransport::new(vec![Ok(generate_envelope(MIXED_ALIASES))]);
    let aliases = backend.suggest_aliases(&mut transport, "git status", "ctx").unwrap();
    assert_eq!(aliases.len(), 1);
    assert_eq!(aliases[0].command, "alias gs='git status'");
    assert_eq!(aliases[0].explanation, "short status");
    assert_eq!(aliases[0].confidence, 90);
}

#[test]
fn suggest_aliases_exhaustion_is_empty_not_error() {
    let backend = OllamaBackend::new("http://localhost:11434".to_string(), None);
    let mut transport = MockTransport::new(vec![Ok(generate_envelope("never json"))]);
    let aliases = backend.suggest_aliases(&mut transport, "git status", "ctx").unwrap();
    assert!(aliases.is_empty());
    assert_eq!(transport.calls, 5);
}

#[test]
fn suggest_aliases_transport_error_aborts() {
    let backend = OllamaBackend::new("http://localhost:11434".to_string(), None);
    let mut transport = MockTransport::new(vec![Err("down".to_string())]);
    assert!(matches!(
        backend.suggest_aliases(&mut transport, "git status", "ctx"),
        Err(BackendError::Transport(_))
    ));
}

#[test]
fn hosted_backend_translates_and_authenticates() {
    let backend = OpenAIBackend::new("key123".to_string(), None);
    let payload = "[{\"command\":\"ls\",\"explanation\":\"list\",\"confidence\":0.9}]";
    let mut transport = MockTransport::new(vec![Ok(chat_envelope(payload))]);
    let result = backend.translate_to_command(&mut transport, "list files", "ctx").unwrap();
    assert_eq!(result.len(), 1);
    assert!(matches!(&result[0], ResponseType::Command(o) if o.command == "ls"));
    assert_eq!(transport.urls[0], "https://api.openai.com/v1/chat/completions");
    assert_eq!(transport.tokens[0], Some("Bearer key123".to_string()));
    assert!(transport.bodies[0].contains("\"messages\":[{\"role\":\"system\",\"content\":\""));
    assert!(transport.bodies[0].contains("\"role\":\"user\",\"content\":\"list files\""));
}

#[test]
fn hosted_backend_retries_like_the_local_one() {
    let backend = OpenAIBackend::new("key123".to_string(), None);
    let mut transport = MockTransport::new(vec![Ok(chat_envelope("still not json"))]);
    let result = backend.translate_to_command(&mut transport, "q", "c").unwrap();
    assert_eq!(transport.calls, 5);
    assert!(matches!(&result[0], ResponseType::Uncertain(_)));
}

#[test]
fn hosted_backend_aliases_use_temperature() {
    let backend = OpenAIBackend::new("key123".to_string(), None);
    let mut transport = MockTransport::new(vec![Ok(chat_envelope(MIXED_ALIASES))]);
    let aliases = backend.suggest_aliases(&mut transport, "git status", "ctx").unwrap();
    assert_eq!(aliases.len(), 1);
    assert!(transport.bodies[0].ends_with(",\"temperature\":0.7}"));
}

#[test]
fn hosted_backend_explains() {
    let backend = OpenAIBackend::new("key123".to_string(), Some("gpt-4".to_string()));
    let mut transport = MockTransport::new(vec![Ok(chat_envelope("It shows git state."))]);
    let r = backend.explain_command(&mut transport, "git status", "ctx").unwrap();
    match r {
        ResponseType::Command(o) => {
            assert_eq!(o.command, "git status");
            assert_eq!(o.explanation, "It shows git state.");
            assert_eq!(o.confidence, 100);
        },
        _ => panic!("an explanation must come back as a Command entry"),
    }
    assert!(transport.bodies[0].contains("\"model\":\"gpt-4\""));
}
