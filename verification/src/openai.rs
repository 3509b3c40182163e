//! The hosted-API backend: every operation is a chat-completion call posted
//! to the provider's fixed URL with a bearer token, the reply text carried
//! under "choices[0].message.content".

use vstd::prelude::*;
use vstd::string::StringExecFns;

use crate::alias::scope_aliases;
use crate::decode::{extract_chat_reply, repaired_models};
use crate::encode::{chat_body_one, chat_body_two, chat_body_two_temp};
use crate::llm::{BackendError, LLMBackend, Transport, TransportRequest};
use crate::prompt::{chat_alias_system, chat_alias_user, chat_explain_system,
    chat_translate_system};
use crate::protocol::{RetrySession, MAX_ATTEMPTS};
use crate::response::{classified_all, exhausted_result, explained, lemma_classified_response,
    CommandOption, ResponseType};

verus! {

/// A backend for a hosted chat-completion API: a key and a model name.
pub struct OpenAIBackend {
    api_key: String,
    model: String,
}

impl OpenAIBackend {
    /// The API key this backend authenticates with.
    pub closed spec fn key_view(&self) -> Seq<char> {
        self.api_key@
    }

    /// The model this backend asks for.
    pub closed spec fn model_view(&self) -> Seq<char> {
        self.model@
    }

    /// Constructs the backend; without a model name, the default model
    /// "gpt-3.5-turbo" is used.
    pub fn new(api_key: String, model: Option<String>) -> (s: Self)
        ensures
            s.key_view() == api_key@,
            s.model_view() == match model {
                Some(m) => m@,
                None => "gpt-3.5-turbo"@,
            },
    {
        let m = match model {
            Some(m) => m,
            None => String::from_str("gpt-3.5-turbo"),
        };
        OpenAIBackend { api_key, model: m }
    }

    /// The request of one chat-completion call carrying `body`.
    fn chat_request(&self, body: String) -> (req: TransportRequest)
        ensures
            req.url@ == "https://api.openai.com/v1/chat/completions"@,
            req.bearer_token matches Some(t) && t@ == "Bearer "@ + self.key_view(),
            req.body == body,
    {
        let url = String::from_str("https://api.openai.com/v1/chat/completions");
        let mut token = String::from_str("Bearer ");
        token.append(self.api_key.as_str());
        TransportRequest { url, bearer_token: Some(token), body }
    }
}

impl LLMBackend for OpenAIBackend {
    /// Drives the retry-and-repair protocol over chat-completion calls:
    /// each attempt's system message lists every reply that failed to parse
    /// so far, and exhaustion degrades to the single advisory entry.
    fn translate_to_command<T: Transport>(
        &self,
        transport: &mut T,
        query: &str,
        additional_context: &str,
    ) -> (r: Result<Vec<ResponseType>, BackendError>) {
        let mut session = RetrySession::new();
        while session.attempts_made() < MAX_ATTEMPTS
            invariant
                session.wf(),
            decreases MAX_ATTEMPTS - session.history().len(),
        {
            let system = chat_translate_system(additional_context, session.failures());
            let body = chat_body_two(self.model.as_str(), system.as_str(), query);
            let request = self.chat_request(body);
            let reply = match transport.send(&request) {
                Ok(b) => b,
                Err(e) => {
                    return Err(BackendError::Transport(e));
                },
            };
            let payload = match extract_chat_reply(reply.as_str()) {
                Some(t) => t,
                None => {
                    return Err(BackendError::Format(String::from_str("Invalid response format")));
                },
            };
            let ghost pv = payload@;
            match session.feed(payload) {
                Some(v) => {
                    proof {
                        match repaired_models(pv) {
                            Some(models) => {
                                assert(classified_all(models, v@));
                                assert forall|i: int|
                                    0 <= i < v@.len() implies crate::response::classified_response(
                                    v@[i],
                                ) by {
                                    lemma_classified_response(models[i], v@[i]);
                                }
                            },
                            None => {
                                assert(false);
                            },
                        }
                    }
                    return Ok(v);
                },
                None => {},
            }
        }
        Ok(exhausted_result())
    }

    /// One chat-completion call; the reply text becomes the explanation,
    /// wrapped at full confidence around the asked-about command.
    fn explain_command<T: Transport>(
        &self,
        transport: &mut T,
        command: &str,
        additional_context: &str,
    ) -> (r: Result<ResponseType, BackendError>) {
        let system = chat_explain_system(command, additional_context);
        let body = chat_body_one(self.model.as_str(), system.as_str());
        let request = self.chat_request(body);
        let reply = match transport.send(&request) {
            Ok(b) => b,
            Err(e) => {
                return Err(BackendError::Transport(e));
            },
        };
        let explanation = match extract_chat_reply(reply.as_str()) {
            Some(t) => t,
            None => {
                return Err(BackendError::Format(String::from_str("Invalid response format")));
            },
        };
        Ok(explained(command, explanation))
    }

    /// Drives the retry-and-repair protocol over chat-completion calls and
    /// scopes what parses to the asked-about command; an exhausted session
    /// answers with no suggestions rather than an error.
    fn suggest_aliases<T: Transport>(
        &self,
        transport: &mut T,
        command: &str,
        additional_context: &str,
    ) -> (r: Result<Vec<CommandOption>, BackendError>) {
        let mut session = RetrySession::new();
        while session.attempts_made() < MAX_ATTEMPTS
            invariant
                session.wf(),
            decreases MAX_ATTEMPTS - session.history().len(),
        {
            let system = chat_alias_system(additional_context);
            let user = chat_alias_user(command, session.failures());
            let body = chat_body_two_temp(self.model.as_str(), system.as_str(), user.as_str());
            let request = self.chat_request(body);
            let reply = match transport.send(&request) {
                Ok(b) => b,
                Err(e) => {
                    return Err(BackendError::Transport(e));
                },
            };
            let payload = match extract_chat_reply(reply.as_str()) {
                Some(t) => t,
                None => {
                    return Err(BackendError::Format(String::from_str("Invalid response format")));
                },
            };
            match session.feed_options(payload) {
                Some(options) => {
                    return Ok(scope_aliases(command, options));
                },
                None => {},
            }
        }
        Ok(Vec::new())
    }
}

} // verus!
