use vstd::prelude::*;
use vstd::string::StringExecFns;

verus! {

/// Which outside language model to use, and where it is served.
#[derive(Debug, Clone)]
pub struct LLMConfig {
    pub model: String,
    pub endpoint: String,
}

/// A stand-in for an outside language model: it names the prompt and the model.
pub struct LLM {
    pub config: LLMConfig,
}

impl LLM {
    pub fn new(config: LLMConfig) -> (r: Self)
        ensures
            r.config == config,
    {
        LLM { config }
    }

    /// `Generated response for '<prompt>': <model>`.
    pub fn generate(&self, prompt: &str) -> (r: String)
        ensures
            r@ == "Generated response for '"@ + prompt@ + "': "@ + self.config.model@,
    {
        let mut s = "Generated response for '".to_owned();
        s.append(prompt);
        s.append("': ");
        s.append(self.config.model.as_str());
        s
    }
}

/// The version of the governing model.
#[derive(Debug, Clone)]
pub struct MapleLLMConfig {
    pub version: String,
}

/// A stand-in for the governing model: it names its version and the context.
pub struct MapleLLM {
    pub config: MapleLLMConfig,
}

impl MapleLLM {
    pub fn new(config: MapleLLMConfig) -> (r: Self)
        ensures
            r.config == config,
    {
        MapleLLM { config }
    }

    /// `Governing with version <version>: <context>`.
    pub fn govern(&self, context: &str) -> (r: String)
        ensures
            r@ == "Governing with version "@ + self.config.version@ + ": "@ + context@,
    {
        let mut s = "Governing with version ".to_owned();
        s.append(self.config.version.as_str());
        s.append(": ");
        s.append(context);
        s
    }
}

} // verus!
