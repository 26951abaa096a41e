//! Configuration of an agent and of the session it works in, as far as decisions read it.
use crate::conversation::SessionSnapshot;
use crate::text::copy_opt;
use std::sync::Arc;
use vstd::prelude::*;

verus! {

/// A model of the provider registry, resolved.
#[derive(Clone, Debug, PartialEq, Eq)]
pub struct ResolvedModel {
    pub model: String,
    pub provider_type: String,
    pub context_window: u64,
    pub max_tokens: Option<u64>,
    pub thinking_type: Option<String>,
    pub thinking_keep: Option<String>,
    pub reasoning_history: Option<String>,
    pub thinking_enabled: Option<bool>,
    pub user_agent: Option<String>,
    pub skip_tls_verify: bool,
    pub api_key: Option<String>,
    pub base_url: Option<String>,
}

/// What an agent is built from.
#[derive(Clone, Debug, PartialEq, Eq)]
pub struct CodingAgentConfig {
    pub provider_name: String,
    pub model: String,
    pub provider_type: String,
    pub base_url: String,
    pub api_key: String,
    pub context_window: u32,
    pub max_tokens: Option<u32>,
    pub thinking_type: Option<String>,
    pub thinking_keep: Option<String>,
    pub reasoning_history: Option<String>,
    pub thinking_enabled: Option<bool>,
    pub user_agent: Option<String>,
    pub skip_tls_verify: bool,
    pub working_dir: String,
    /// Which routing table for subagents is attached, if one is.
    pub subagent_config: Option<u64>,
    /// Which provider for cheap subagents is attached, if one is.
    pub subagent_fast_provider: Option<u64>,
    /// Which provider for capable subagents is attached, if one is.
    pub subagent_capable_provider: Option<u64>,
}

impl CodingAgentConfig {
    /// A configuration of the model at the endpoint, with nothing else set.
    pub fn new(api_key: &str, base_url: &str, model: &str, working_dir: &str) -> (config: Self)
        ensures
            config.api_key@ == api_key@,
            config.base_url@ == base_url@,
            config.model@ == model@,
            config.working_dir@ == working_dir@,
            config.provider_name@ == Seq::<char>::empty(),
            config.provider_type@ == Seq::<char>::empty(),
            config.context_window == 0,
            config.max_tokens is None,
            config.thinking_type is None,
            config.thinking_keep is None,
            config.reasoning_history is None,
            config.thinking_enabled is None,
            config.user_agent is None,
            !config.skip_tls_verify,
            config.subagent_config is None && config.subagent_fast_provider is None,
            config.subagent_capable_provider is None,
    {
        CodingAgentConfig {
            provider_name: String::new(),
            model: model.to_owned(),
            provider_type: String::new(),
            base_url: base_url.to_owned(),
            api_key: api_key.to_owned(),
            context_window: 0,
            max_tokens: None,
            thinking_type: None,
            thinking_keep: None,
            reasoning_history: None,
            thinking_enabled: None,
            user_agent: None,
            skip_tls_verify: false,
            working_dir: working_dir.to_owned(),
            subagent_config: None,
            subagent_fast_provider: None,
            subagent_capable_provider: None,
        }
    }

    pub fn duplicate(&self) -> (copy: Self)
        ensures
            copy == *self,
    {
        CodingAgentConfig {
            provider_name: self.provider_name.clone(),
            model: self.model.clone(),
            provider_type: self.provider_type.clone(),
            base_url: self.base_url.clone(),
            api_key: self.api_key.clone(),
            context_window: self.context_window,
            max_tokens: self.max_tokens,
            thinking_type: copy_opt(&self.thinking_type),
            thinking_keep: copy_opt(&self.thinking_keep),
            reasoning_history: copy_opt(&self.reasoning_history),
            thinking_enabled: self.thinking_enabled,
            user_agent: copy_opt(&self.user_agent),
            skip_tls_verify: self.skip_tls_verify,
            working_dir: self.working_dir.clone(),
            subagent_config: self.subagent_config,
            subagent_fast_provider: self.subagent_fast_provider,
            subagent_capable_provider: self.subagent_capable_provider,
        }
    }
}

/// The session that a runtime is prepared for.
#[derive(Clone, Debug, PartialEq, Eq)]
pub enum SessionMode {
    Fresh,
    Resume(String),
    ExternalSnapshot { id: String, snapshot: Arc<SessionSnapshot> },
    Disabled,
}

/// A directory of skills that a plugin brings, with the plugin's name.
#[derive(Clone, Debug, PartialEq, Eq)]
pub struct PluginSkillDir {
    pub path: String,
    pub plugin: String,
}

/// How a runtime is prepared.
#[derive(Clone, Debug, PartialEq, Eq)]
pub struct PrepareOptions {
    pub session: SessionMode,
    pub plugin_skill_dirs: Arc<Vec<PluginSkillDir>>,
    pub request_user_input: bool,
    pub mcp: bool,
    pub memory: bool,
    pub web: bool,
    pub review: bool,
}

/// The id of the session that the mode goes back to, if it goes back to one.
pub open spec fn target_session(mode: SessionMode) -> Option<Seq<char>> {
    match mode {
        SessionMode::Resume(id) => Some(id@),
        SessionMode::ExternalSnapshot { id, snapshot } => Some(id@),
        SessionMode::Fresh => None,
        SessionMode::Disabled => None,
    }
}

} // verus!
