//! Sampling configuration: the user-facing knobs (temperature, top-k, top-p)
//! are resolved once, by a fixed precedence rule, into one concrete sampling
//! strategy.
//!
//! The numeric payloads (temperature and the nucleus mass) are only carried
//! through to the sampler, never read by the engine, so the strategy is
//! generic over their type; the driver instantiates it with its floating-point
//! knob values.

use vstd::prelude::*;

verus! {

/// One concrete way of turning a logits vector into a token choice.
#[derive(Debug, Clone, Copy, PartialEq)]
pub enum SamplingStrategy<T> {
    /// Deterministically take the highest-probability surviving token.
    ArgMax,
    /// Temperature-scaled sampling over the full distribution.
    All { temperature: T },
    /// Keep the k most probable tokens, renormalize, then sample.
    TopK { k: usize, temperature: T },
    /// Keep the smallest probability-sorted prefix of mass at least p,
    /// renormalize, then sample.
    TopP { p: T, temperature: T },
    /// Top-k truncation first, nucleus truncation second.
    TopKThenTopP { k: usize, p: T, temperature: T },
}

/// The precedence rule of the configuration: a present `top_k` wins and is
/// combined with `top_p` when that is present too; otherwise a present
/// `top_p` wins; otherwise a present `temperature` selects full-distribution
/// sampling; with no knob at all the choice is deterministic arg-max. The
/// combined and nucleus strategies take `fallback_temperature` when no
/// temperature was given; plain top-k always takes `fallback_temperature`,
/// even when a temperature was supplied.
pub open spec fn spec_resolve_sampling<T>(
    top_k: Option<usize>,
    top_p: Option<T>,
    temperature: Option<T>,
    fallback_temperature: T,
) -> SamplingStrategy<T> {
    match top_k {
        Some(k) => match top_p {
            Some(p) => SamplingStrategy::TopKThenTopP {
                k,
                p,
                temperature: match temperature {
                    Some(t) => t,
                    None => fallback_temperature,
                },
            },
            None => SamplingStrategy::TopK { k, temperature: fallback_temperature },
        },
        None => match top_p {
            Some(p) => SamplingStrategy::TopP {
                p,
                temperature: match temperature {
                    Some(t) => t,
                    None => fallback_temperature,
                },
            },
            None => match temperature {
                Some(t) => SamplingStrategy::All { temperature: t },
                None => SamplingStrategy::ArgMax,
            },
        },
    }
}

/// Resolve the optional user knobs into one strategy, by the precedence rule.
pub fn resolve_sampling<T>(
    top_k: Option<usize>,
    top_p: Option<T>,
    temperature: Option<T>,
    fallback_temperature: T,
) -> (r: SamplingStrategy<T>)
    ensures
        r == spec_resolve_sampling(top_k, top_p, temperature, fallback_temperature),
{
    match top_k {
        Some(k) => match top_p {
            Some(p) => SamplingStrategy::TopKThenTopP {
                k,
                p,
                temperature: match temperature {
                    Some(t) => t,
                    None => fallback_temperature,
                },
            },
            None => SamplingStrategy::TopK { k, temperature: fallback_temperature },
        },
        None => match top_p {
            Some(p) => SamplingStrategy::TopP {
                p,
                temperature: match temperature {
                    Some(t) => t,
                    None => fallback_temperature,
                },
            },
            None => match temperature {
                Some(t) => SamplingStrategy::All { temperature: t },
                None => SamplingStrategy::ArgMax,
            },
        },
    }
}

/// Strategy precedence: with both `top_k` and `top_p` present and no
/// temperature, resolution yields the combined truncation with the fallback
/// temperature; with only a temperature present it yields full-distribution
/// temperature sampling, never arg-max.
pub proof fn lemma_strategy_precedence<T>(k: usize, p: T, t: T, fallback_temperature: T)
    ensures
        spec_resolve_sampling(Some(k), Some(p), None::<T>, fallback_temperature)
            == (SamplingStrategy::TopKThenTopP { k, p, temperature: fallback_temperature }),
        spec_resolve_sampling(None::<usize>, None::<T>, Some(t), fallback_temperature) == (
        SamplingStrategy::All { temperature: t }),
        spec_resolve_sampling(None::<usize>, None::<T>, Some(t), fallback_temperature)
            != SamplingStrategy::<T>::ArgMax,
{
}

} // verus!
