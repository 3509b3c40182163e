//! Resolved configuration: which backend to use, its settings, and the
//! free-text description of the user's environment injected into every
//! prompt.  Reading and writing the configuration file is a caller's
//! business; this module owns the values and the selection rule.

use vstd::prelude::*;
use vstd::string::StringExecFns;

use crate::ollama::OllamaBackend;
use crate::openai::OpenAIBackend;

verus! {

/// Which integration a configuration selects.
#[derive(Debug)]
pub enum LlmBackend {
    OpenAI,
    Ollama,
}

/// The settings of the hosted backend.
#[derive(Debug)]
pub struct OpenAIConfig {
    pub api_key: String,
    pub model: String,
}

/// The settings of the local backend.
#[derive(Debug)]
pub struct OllamaConfig {
    pub endpoint: String,
    pub model: String,
}

/// A resolved configuration.
#[derive(Debug)]
pub struct Config {
    pub backend: LlmBackend,
    pub openai: Option<OpenAIConfig>,
    pub ollama: Option<OllamaConfig>,
    pub additional_context: String,
}

impl Default for Config {
    /// The configuration written on first run: the local backend selected,
    /// both sections filled in with their customary defaults.
    fn default() -> (c: Self)
        ensures
            c.backend is Ollama,
            c.openai matches Some(o) && o.api_key@ == "your-openai-api-key-here"@ && o.model@
                == "gpt-3.5-turbo"@,
            c.ollama matches Some(o) && o.endpoint@ == "http://localhost:11434"@ && o.model@
                == "llama3.2"@,
            c.additional_context@
                == "running macos and generally zsh, is a developer, and uses brew"@,
    {
        Config {
            backend: LlmBackend::Ollama,
            openai: Some(
                OpenAIConfig {
                    api_key: String::from_str("your-openai-api-key-here"),
                    model: String::from_str("gpt-3.5-turbo"),
                },
            ),
            ollama: Some(
                OllamaConfig {
                    endpoint: String::from_str("http://localhost:11434"),
                    model: String::from_str("llama3.2"),
                },
            ),
            additional_context: String::from_str(
                "running macos and generally zsh, is a developer, and uses brew",
            ),
        }
    }
}

/// The constructed integration a configuration selects.
pub enum SelectedBackend {
    OpenAI(OpenAIBackend),
    Ollama(OllamaBackend),
}

impl Config {
    /// Constructs the selected backend from its settings section, or says
    /// which section is missing.
    pub fn select_backend(self) -> (r: Result<SelectedBackend, String>)
        ensures
            self.backend is OpenAI && self.openai is Some ==> (r matches Ok(b) && b matches
                SelectedBackend::OpenAI(ob) && ob.key_view() == self.openai->Some_0.api_key@
                && ob.model_view() == self.openai->Some_0.model@),
            self.backend is Ollama && self.ollama is Some ==> (r matches Ok(b) && b matches
                SelectedBackend::Ollama(ob) && ob.endpoint_view() == self.ollama->Some_0.endpoint@
                && ob.model_view() == self.ollama->Some_0.model@),
            self.backend is OpenAI && self.openai is None ==> (r matches Err(e) && e@
                == "OpenAI config missing"@),
            self.backend is Ollama && self.ollama is None ==> (r matches Err(e) && e@
                == "Ollama config missing"@),
    {
        match self.backend {
            LlmBackend::OpenAI => match self.openai {
                Some(c) => Ok(
                    SelectedBackend::OpenAI(OpenAIBackend::new(c.api_key, Some(c.model))),
                ),
                None => Err(String::from_str("OpenAI config missing")),
            },
            LlmBackend::Ollama => match self.ollama {
                Some(c) => Ok(
                    SelectedBackend::Ollama(OllamaBackend::new(c.endpoint, Some(c.model))),
                ),
                None => Err(String::from_str("Ollama config missing")),
            },
        }
    }
}

} // verus!
