use howto::llm::{BackendError, LLMBackend, Transport, TransportRequest};
use howto::ollama::OllamaBackend;
use howto::protocol::RetrySession;
use howto::response::ResponseType;

struct MockTransport {
    replies: Vec<Result<String, String>>,
    calls: usize,
    bodies: Vec<String>,
    urls: Vec<String>,
}

impl MockTransport {
    fn new(replies: Vec<Result<String, String>>) -> Self {
        MockTransport { replies, calls: 0, bodies: Vec::new(), urls: Vec::new() }
    }
}

impl Transport for MockTransport {
    fn send(&mut self, request: &TransportRequest) -> Result<String, String> {
        self.bodies.push(request.body.clone());
        self.urls.push(request.url.clone());
        let i = if self.calls < self.replies.len() { self.calls } else { self.replies.len() - 1 };
        self.calls += 1;
        self.replies[i].clone()
    }
}

fn generate_envelope(payload: &str) -> String {
    format!("{{\"response\":{}}}", serde_json::to_string(payload).unwrap())
}

const GOOD_ARRAY: &str = "[{\"command\":\"ls\",\"explanation\":\"list\",\"confidence\":0.9}]";

#[test]
fn session_records_failures_in_order() {
    let mut session = RetrySession::new();
    assert_eq!(session.attempts_made(), 0);
    assert!(!session.exhausted());
    assert!(session.feed("first garbage".to_string()).is_none());
    assert!(session.feed("second garbage".to_string()).is_none());
    assert_eq!(session.attempts_made(), 2);
    let failures = session.failures();
    assert_eq!(failures.len(), 2);
    assert_eq!(failures[0], "first garbage");
    assert_eq!(failures[1], "second garbage");
}

#[test]
fn session_recovers_on_later_attempt() {
    let mut session = RetrySession::new();
    assert!(session.feed("garbage".to_string()).is_none());
    let replies = session.feed(GOOD_ARRAY.to_string()).expect("second attempt parses");
    assert_eq!(replies.len(), 1);
    match &replies[0] {
        ResponseType::Command(o) => {
            assert_eq!(o.command, "ls");
            assert_eq!(o.confidence, 90);
        },
        _ => panic!("confidence 0.9 must classify as Command"),
    }
    // The successful attempt is not recorded as a failure.
    assert_eq!(session.attempts_made(), 1);
}

#[test]
fn session_exhausts_after_five_failures() {
    let mut session = RetrySession::new();
    for i in 0..5 {
        assert!(!session.exhausted());
        assert!(session.feed(format!("garbage {}", i)).is_none());
    }
    assert!(session.exhausted());
    assert_eq!(session.attempts_made(), 5);
}

#[test]
fn translate_exhausts_after_exactly_five_attempts() {
    let backend = OllamaBackend::new("http://localhost:11434".to_string(), None);
    let mut transport = MockTransport::new(vec![Ok(generate_envelope("not json at all"))]);
    let result = backend.translate_to_command(&mut transport, "list files", "ctx").unwrap();
    assert_eq!(transport.calls, 5);
    assert_eq!(result.len(), 1);
    match &result[0] {
        ResponseType::Uncertain(m) => {
            assert_eq!(m, "Failed to generate valid command options after multiple attempts.");
        },
        _ => panic!("exhaustion must degrade to a single Uncertain entry"),
    }
}

#[test]
fn translate_recovers_and_feeds_back_failure() {
    let backend = OllamaBackend::new("http://localhost:11434".to_string(), None);
    let mut transport = MockTransport::new(vec![
        Ok(generate_envelope("garbage output")),
        Ok(generate_envelope(GOOD_ARRAY)),
    ]);
    let result = backend.translate_to_command(&mut transport, "list files", "ctx").unwrap();
    assert_eq!(transport.calls, 2);
    assert_eq!(result.len(), 1);
    match &result[0] {
        ResponseType::Command(o) => {
            assert_eq!(o.command, "ls");
            assert_eq!(o.confidence, 90);
        },
        _ => panic!("confidence 0.9 must classify as Command"),
    }
    // The first prompt carries no feedback section; the second quotes the
    // failed reply verbatim.
    assert!(!transport.bodies[0].contains("Attempt 1:"));
    assert!(transport.bodies[1].contains("Previous attempts failed to generate valid JSON"));
    assert!(transport.bodies[1].contains("Attempt 1: garbage output"));
}

#[test]
fn translate_end_to_end_scenario() {
    let backend = OllamaBackend::new("http://localhost:11434".to_string(), None);
    let payload =
        "[{\"command\":\"find . -name '*.pdf'\",\"explanation\":\"Finds PDF files in the current directory\",\"confidence\":0.95}]";
    let mut transport = MockTransport::new(vec![Ok(generate_envelope(payload))]);
    let result = backend.translate_to_command(&mut transport, "list pdf files", "ctx").unwrap();
    assert_eq!(transport.calls, 1);
    assert_eq!(result.len(), 1);
    match &result[0] {
        ResponseType::Command(o) => {
            assert_eq!(o.command, "find . -name '*.pdf'");
            assert_eq!(o.confidence, 95);
        },
        _ => panic!("confidence 0.95 must classify as Command"),
    }
}

#[test]
fn translate_empty_array_counts_as_failure() {
    let backend = OllamaBackend::new("http://localhost:11434".to_string(), None);
    let mut transport = MockTransport::new(vec![
        Ok(generate_envelope("[]")),
        Ok(generate_envelope(GOOD_ARRAY)),
    ]);
    let result = backend.translate_to_command(&mut transport, "q", "c").unwrap();
    assert_eq!(transport.calls, 2);
    assert!(matches!(&result[0], ResponseType::Command(_)));
}

#[test]
fn translate_transport_error_aborts() {
    let backend = OllamaBackend::new("http://localhost:11434".to_string(), None);
    let mut transport = MockTransport::new(vec![Err("connection refused".to_string())]);
    match backend.translate_to_command(&mut transport, "q", "c") {
        Err(BackendError::Transport(d)) => assert_eq!(d, "connection refused"),
        _ => panic!("a transport failure must abort the operation"),
    }
    assert_eq!(transport.calls, 1);
}

#[test]
fn translate_broken_envelope_aborts() {
    let backend = OllamaBackend::new("http://localhost:11434".to_string(), None);
    let mut transport = MockTransport::new(vec![Ok("{\"done\":true}".to_string())]);
    match backend.translate_to_command(&mut transport, "q", "c") {
        Err(BackendError::Format(_)) => {},
        _ => panic!("a reply without the envelope field must abort the operation"),
    }
}

#[test]
fn translate_posts_to_generate_endpoint() {
    let backend = OllamaBackend::new("http://host:1".to_string(), Some("m1".to_string()));
    let mut transport = MockTransport::new(vec![Ok(generate_envelope(GOOD_ARRAY))]);
    backend.translate_to_command(&mut transport, "q", "c").unwrap();
    assert_eq!(transport.urls[0], "http://host:1/api/generate");
    assert!(transport.bodies[0].starts_with("{\"model\":\"m1\",\"prompt\":\""));
    assert!(transport.bodies[0].ends_with("\",\"stream\":false}"));
}

#[test]
fn explain_wraps_reply_at_full_confidence() {
    let backend = OllamaBackend::new("http://localhost:11434".to_string(), None);
    let mut transport = MockTransport::new(vec![Ok(generate_envelope("It lists files."))]);
    let r = backend.explain_command(&mut transport, "ls -la", "ctx").unwrap();
    match r {
        ResponseType::Command(o) => {
            assert_eq!(o.command, "ls -la");
            assert_eq!(o.explanation, "It lists files.");
            assert_eq!(o.confidence, 100);
        },
        _ => panic!("an explanation must come back as a Command entry"),
    }
    assert_eq!(transport.calls, 1);
}

#[test]
fn explain_propagates_errors() {
    let backend = OllamaBackend::new("http://localhost:11434".to_string(), None);
    let mut transport = MockTransport::new(vec![Err("no route".to_string())]);
    assert!(matches!(
        backend.explain_command(&mut transport, "ls", "ctx"),
        Err(BackendError::Transport(_))
    ));
    let mut transport = MockTransport::new(vec![Ok("not json".to_string())]);
    assert!(matches!(
        backend.explain_command(&mut transport, "ls", "ctx"),
        Err(BackendError::Format(_))
    ));
}
