//! The backend contract: the capability interface every model integration
//! implements, and the transport boundary it is driven through.
//!
//! A [`Transport`] performs one HTTP POST per attempt and hands back the raw
//! response body; nothing is assumed of it, so everything proved of a
//! backend holds whatever a transport returns.  The [`LLMBackend`] trait
//! carries the contract shared by all backends: translation always answers
//! with at least one entry and never with an unclassified one, an
//! explanation always wraps the asked-about command at full confidence, and
//! alias suggestions never leave the scope of the asked-about command.

use vstd::prelude::*;

use crate::alias::alias_in_scope;
use crate::response::{all_classified, exhausted_singleton, CommandOption, ResponseType,
    FULL_CONFIDENCE};

verus! {

/// One HTTP POST, described as plain values: where to send, the bearer token
/// to authenticate with (if any), and the JSON body.
pub struct TransportRequest {
    pub url: String,
    pub bearer_token: Option<String>,
    pub body: String,
}

/// The transport boundary: performs one request and hands back the response
/// body, or a description of why it could not.  No contract is attached —
/// the caller must cope with every outcome.
pub trait Transport {
    fn send(&mut self, request: &TransportRequest) -> (r: Result<String, String>);
}

/// A failure of a single-shot operation: the transport could not complete
/// the call, or the reply did not carry the expected envelope.
#[derive(Debug)]
pub enum BackendError {
    Transport(String),
    Format(String),
}

impl BackendError {
    /// A short display text for the failure.
    pub fn message(&self) -> (m: String)
        ensures
            self matches BackendError::Transport(d) ==> m@ == "Failed to send request: "@ + d@,
            self matches BackendError::Format(d) ==> m@ == "Failed to parse response: "@ + d@,
    {
        match self {
            BackendError::Transport(d) => {
                let mut m = String::from_str("Failed to send request: ");
                m.append(d.as_str());
                m
            },
            BackendError::Format(d) => {
                let mut m = String::from_str("Failed to parse response: ");
                m.append(d.as_str());
                m
            },
        }
    }
}

/// The resolved settings a backend is constructed from.
#[derive(Debug)]
pub struct LLMConfig {
    pub provider: String,
    pub api_key: Option<String>,
    pub model: Option<String>,
    pub endpoint: Option<String>,
}

/// The capability interface every model integration implements.
pub trait LLMBackend {
    /// Translates a free-text query into classified command suggestions.
    ///
    /// This path never fails for format reasons: it retries within the
    /// attempt bound and then degrades to the single advisory entry.  Only a
    /// transport failure or a broken reply envelope is an error.
    fn translate_to_command<T: Transport>(
        &self,
        transport: &mut T,
        query: &str,
        additional_context: &str,
    ) -> (r: Result<Vec<ResponseType>, BackendError>)
        ensures
            r matches Ok(v) ==> v@.len() >= 1,
            r matches Ok(v) ==> all_classified(v@) || exhausted_singleton(v@),
    ;

    /// Explains an existing command: answers with exactly one `Command`
    /// entry wrapping the explanation, at full confidence.  Unlike
    /// translation there is no fallback: transport and format failures are
    /// errors.
    fn explain_command<T: Transport>(
        &self,
        transport: &mut T,
        command: &str,
        additional_context: &str,
    ) -> (r: Result<ResponseType, BackendError>)
        ensures
            r matches Ok(resp) ==> (resp matches ResponseType::Command(o) && o.command@
                == command@ && o.confidence == FULL_CONFIDENCE),
    ;

    /// Suggests aliases for one given command.  Every suggestion handed back
    /// mentions that command's base word; none is ever an alias for another
    /// command.  An empty answer is valid, and stands in for an exhausted
    /// retry bound as well.
    fn suggest_aliases<T: Transport>(
        &self,
        transport: &mut T,
        command: &str,
        additional_context: &str,
    ) -> (r: Result<Vec<CommandOption>, BackendError>)
        ensures
            r matches Ok(v) ==> forall|i: int|
                0 <= i < v@.len() ==> alias_in_scope(command@, #[trigger] v@[i].command@),
    ;
}

} // verus!
