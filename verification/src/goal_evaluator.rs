//! The provider that judges a goal: the one configured for it, else the host's own.
use crate::config::{CodingAgentConfig, ResolvedModel};
use crate::text::copy_opt;
use vstd::prelude::*;

verus! {

/// A number cut to the low 32 bits.
pub open spec fn low_word(value: u64) -> u32 {
    (value as int % 0x1_0000_0000) as u32
}

fn cut_word(value: u64) -> (word: u32)
    ensures
        word == low_word(value),
{
    (value % 0x1_0000_0000) as u32
}

/// Text of an optional string, empty where there is none.
pub open spec fn text_or_empty(text: Option<String>) -> Seq<char> {
    match text {
        Some(t) => t@,
        None => Seq::empty(),
    }
}

fn or_empty(text: &Option<String>) -> (copy: String)
    ensures
        copy@ == text_or_empty(*text),
{
    match text {
        Some(t) => t.clone(),
        None => String::new(),
    }
}

/// Configuration of the evaluator that the key names. It stands at a provider boundary of
/// its own: a credential or endpoint that the model does not bring stays empty, and is never
/// taken from the host. Only what does not concern the provider comes from the host.
pub fn evaluator_config(host: &CodingAgentConfig, key: &str, resolved: &ResolvedModel) -> (config:
    CodingAgentConfig)
    ensures
        config.provider_name@ == key@,
        config.model == resolved.model,
        config.provider_type == resolved.provider_type,
        config.context_window == low_word(resolved.context_window),
        config.max_tokens == match resolved.max_tokens {
            Some(tokens) => Some(low_word(tokens)),
            None => None,
        },
        config.thinking_type == resolved.thinking_type,
        config.thinking_keep == resolved.thinking_keep,
        config.reasoning_history == resolved.reasoning_history,
        config.thinking_enabled == resolved.thinking_enabled,
        config.user_agent == resolved.user_agent,
        config.skip_tls_verify == resolved.skip_tls_verify,
        config.api_key@ == text_or_empty(resolved.api_key),
        config.base_url@ == text_or_empty(resolved.base_url),
        config.working_dir == host.working_dir,
        config.subagent_config is None && config.subagent_fast_provider is None,
        config.subagent_capable_provider is None,
{
    CodingAgentConfig {
        provider_name: key.to_owned(),
        model: resolved.model.clone(),
        provider_type: resolved.provider_type.clone(),
        base_url: or_empty(&resolved.base_url),
        api_key: or_empty(&resolved.api_key),
        context_window: cut_word(resolved.context_window),
        max_tokens: match resolved.max_tokens {
            Some(tokens) => Some(cut_word(tokens)),
            None => None,
        },
        thinking_type: copy_opt(&resolved.thinking_type),
        thinking_keep: copy_opt(&resolved.thinking_keep),
        reasoning_history: copy_opt(&resolved.reasoning_history),
        thinking_enabled: resolved.thinking_enabled,
        user_agent: copy_opt(&resolved.user_agent),
        skip_tls_verify: resolved.skip_tls_verify,
        working_dir: host.working_dir.clone(),
        subagent_config: None,
        subagent_fast_provider: None,
        subagent_capable_provider: None,
    }
}

/// The configurations to try, in order, until one builds: the configured evaluator, where
/// its key resolves, then the host itself. The error of the host is the error of all.
pub fn build_goal_evaluator_provider(
    host: &CodingAgentConfig,
    key: &Option<String>,
    resolved: &Option<ResolvedModel>,
) -> (candidates: Vec<CodingAgentConfig>)
    ensures
        candidates@.len() == if *key is Some && *resolved is Some {
            2int
        } else {
            1int
        },
        candidates@.last() == *host,
        *key is Some && *resolved is Some ==> {
            let evaluator = candidates@[0];
            let model = resolved->0;
            &&& evaluator.provider_name@ == key->0@
            &&& evaluator.model == model.model
            &&& evaluator.provider_type == model.provider_type
            &&& evaluator.context_window == low_word(model.context_window)
            &&& evaluator.max_tokens == match model.max_tokens {
                Some(tokens) => Some(low_word(tokens)),
                None => None,
            }
            &&& evaluator.thinking_type == model.thinking_type
            &&& evaluator.thinking_keep == model.thinking_keep
            &&& evaluator.reasoning_history == model.reasoning_history
            &&& evaluator.thinking_enabled == model.thinking_enabled
            &&& evaluator.user_agent == model.user_agent
            &&& evaluator.skip_tls_verify == model.skip_tls_verify
            &&& evaluator.api_key@ == text_or_empty(model.api_key)
            &&& evaluator.base_url@ == text_or_empty(model.base_url)
            &&& evaluator.working_dir == host.working_dir
            &&& evaluator.subagent_config is None && evaluator.subagent_fast_provider is None
                && evaluator.subagent_capable_provider is None
        },
{
    let mut candidates: Vec<CodingAgentConfig> = Vec::new();
    if let Some(name) = key {
        if let Some(model) = resolved {
            candidates.push(evaluator_config(host, name.as_str(), model));
        }
    }
    candidates.push(host.duplicate());
    candidates
}

/// What to do next on the way to a provider for the evaluator.
#[derive(Clone, Copy, Debug, PartialEq, Eq, Structural)]
pub enum EvaluatorStep {
    /// Build the candidate at the place.
    Build(usize),
    /// Use the one that was built at the place.
    Use(usize),
    /// None of them builds.
    GiveUp,
}

/// The place of the first candidate that was built, or the number of outcomes.
pub open spec fn first_built(outcomes: Seq<bool>) -> int
    decreases outcomes.len(),
{
    if outcomes.len() == 0 {
        0
    } else if first_built(outcomes.drop_last()) < outcomes.len() - 1 {
        first_built(outcomes.drop_last())
    } else if outcomes.last() {
        outcomes.len() - 1
    } else {
        outcomes.len() as int
    }
}

/// Chooses by what has come of the candidates so far, in their order: the first that was
/// built is used and no later one is tried; the next is tried only after all before it
/// failed.
pub fn evaluator_step(candidates: usize, outcomes: &Vec<bool>) -> (step: EvaluatorStep)
    ensures
        step == if first_built(outcomes@) < outcomes@.len() {
            EvaluatorStep::Use(first_built(outcomes@) as usize)
        } else if outcomes@.len() < candidates {
            EvaluatorStep::Build(outcomes@.len() as usize)
        } else {
            EvaluatorStep::GiveUp
        },
{
    let mut i: usize = 0;
    while i < outcomes.len()
        invariant
            0 <= i <= outcomes.len(),
            first_built(outcomes@.take(i as int)) == i,
        decreases outcomes.len() - i,
    {
        proof {
            assert(outcomes@.take(i + 1).drop_last() =~= outcomes@.take(i as int));
            assert(outcomes@.take(i + 1).last() == outcomes@[i as int]);
        }
        if outcomes[i] {
            proof {
                first_built_stays(outcomes@, i as int, outcomes@.len() as int);
                assert(outcomes@.take(outcomes@.len() as int) =~= outcomes@);
            }
            return EvaluatorStep::Use(i);
        }
        i = i + 1;
    }
    assert(outcomes@.take(i as int) =~= outcomes@);
    if outcomes.len() < candidates {
        EvaluatorStep::Build(outcomes.len())
    } else {
        EvaluatorStep::GiveUp
    }
}

proof fn first_built_stays(outcomes: Seq<bool>, i: int, n: int)
    requires
        0 <= i < n <= outcomes.len(),
        first_built(outcomes.take(i + 1)) == i,
    ensures
        first_built(outcomes.take(n)) == i,
    decreases n,
{
    if n > i + 1 {
        first_built_stays(outcomes, i, n - 1);
        assert(outcomes.take(n).drop_last() =~= outcomes.take(n - 1));
    }
}

} // verus!
