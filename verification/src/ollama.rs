//! The local-endpoint backend: every operation is one or more generate
//! calls posted to `<endpoint>/api/generate`, with the reply text carried
//! under the envelope's "response" key.

use vstd::prelude::*;
use vstd::string::StringExecFns;

use crate::alias::scope_aliases;
use crate::decode::{extract_generate_reply, repaired_models};
use crate::encode::{generate_body, generate_body_spec};
use crate::llm::{BackendError, LLMBackend, Transport, TransportRequest};
use crate::prompt::{generate_alias_prompt, generate_explain_prompt, generate_translate_prompt};
use crate::protocol::{RetrySession, MAX_ATTEMPTS};
use crate::response::{classified_all, exhausted_result, explained, lemma_classified_response,
    CommandOption, ResponseType};

verus! {

/// A backend for a locally served model: an endpoint and a model name.
pub struct OllamaBackend {
    endpoint: String,
    model: String,
}

impl OllamaBackend {
    /// The endpoint this backend posts to.
    pub closed spec fn endpoint_view(&self) -> Seq<char> {
        self.endpoint@
    }

    /// The model this backend asks for.
    pub closed spec fn model_view(&self) -> Seq<char> {
        self.model@
    }

    /// Constructs the backend; without a model name, the default model
    /// "llama2" is used.
    pub fn new(endpoint: String, model: Option<String>) -> (s: Self)
        ensures
            s.endpoint_view() == endpoint@,
            s.model_view() == match model {
                Some(m) => m@,
                None => "llama2"@,
            },
    {
        let m = match model {
            Some(m) => m,
            None => String::from_str("llama2"),
        };
        OllamaBackend { endpoint, model: m }
    }

    /// The request of one generate call carrying `prompt`.
    fn generate_request(&self, prompt: &str) -> (req: TransportRequest)
        ensures
            req.url@ == self.endpoint_view() + "/api/generate"@,
            req.bearer_token is None,
            req.body@ == generate_body_spec(self.model_view(), prompt@),
    {
        let mut url = self.endpoint.clone();
        url.append("/api/generate");
        let body = generate_body(self.model.as_str(), prompt);
        TransportRequest { url, bearer_token: None, body }
    }
}

impl LLMBackend for OllamaBackend {
    /// Drives the retry-and-repair protocol over generate calls: each
    /// attempt's prompt lists every reply that failed to parse so far, and
    /// exhaustion degrades to the single advisory entry.
    fn translate_to_command<T: Transport>(
        &self,
        transport: &mut T,
        query: &str,
        additional_context: &str,
    ) -> (r: Result<Vec<ResponseType>, BackendError>) {
        let mut session = RetrySession::new();
        while session.attempts_made() < MAX_ATTEMPTS
            invariant
                session.wf(),
            decreases MAX_ATTEMPTS - session.history().len(),
        {
            let prompt = generate_translate_prompt(additional_context, query, session.failures());
            let request = self.generate_request(prompt.as_str());
            let body = match transport.send(&request) {
                Ok(b) => b,
                Err(e) => {
                    return Err(BackendError::Transport(e));
                },
            };
            let payload = match extract_generate_reply(body.as_str()) {
                Some(t) => t,
                None => {
                    return Err(BackendError::Format(String::from_str("Invalid response format")));
                },
            };
            let ghost pv = payload@;
            match session.feed(payload) {
                Some(v) => {
                    proof {
                        match repaired_models(pv) {
                            Some(models) => {
                                assert(classified_all(models, v@));
                                assert forall|i: int|
                                    0 <= i < v@.len() implies crate::response::classified_response(
                                    v@[i],
                                ) by {
                                    lemma_classified_response(models[i], v@[i]);
                                }
                            },
                            None => {
                                assert(false);
                            },
                        }
                    }
                    return Ok(v);
                },
                None => {},
            }
        }
        Ok(exhausted_result())
    }

    /// One generate call; the reply text becomes the explanation, wrapped at
    /// full confidence around the asked-about command.
    fn explain_command<T: Transport>(
        &self,
        transport: &mut T,
        command: &str,
        additional_context: &str,
    ) -> (r: Result<ResponseType, BackendError>) {
        let prompt = generate_explain_prompt(command, additional_context);
        let request = self.generate_request(prompt.as_str());
        let body = match transport.send(&request) {
            Ok(b) => b,
            Err(e) => {
                return Err(BackendError::Transport(e));
            },
        };
        let explanation = match extract_generate_reply(body.as_str()) {
            Some(t) => t,
            None => {
                return Err(BackendError::Format(String::from_str("Invalid response format")));
            },
        };
        Ok(explained(command, explanation))
    }

    /// Drives the retry-and-repair protocol over generate calls and scopes
    /// what parses to the asked-about command; an exhausted session answers
    /// with no suggestions rather than an error.
    fn suggest_aliases<T: Transport>(
        &self,
        transport: &mut T,
        command: &str,
        additional_context: &str,
    ) -> (r: Result<Vec<CommandOption>, BackendError>) {
        let mut session = RetrySession::new();
        while session.attempts_made() < MAX_ATTEMPTS
            invariant
                session.wf(),
            decreases MAX_ATTEMPTS - session.history().len(),
        {
            let prompt = generate_alias_prompt(command, additional_context, session.failures());
            let request = self.generate_request(prompt.as_str());
            let body = match transport.send(&request) {
                Ok(b) => b,
                Err(e) => {
                    return Err(BackendError::Transport(e));
                },
            };
            let payload = match extract_generate_reply(body.as_str()) {
                Some(t) => t,
                None => {
                    return Err(BackendError::Format(String::from_str("Invalid response format")));
                },
            };
            match session.feed_options(payload) {
                Some(options) => {
                    return Ok(scope_aliases(command, options));
                },
                None => {},
            }
        }
        Ok(Vec::new())
    }
}

} // verus!
