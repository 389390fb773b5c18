//! Run state and configuration of one generation run: the error taxonomy,
//! the mutable cache of consumed and produced tokens, and the immutable
//! configuration bundle resolved once before the first step.

use vstd::prelude::*;

use tokenizers::Tokenizer;

use crate::external::{random_seed, spec_token_to_id, token_to_id};
use crate::sampling::{resolve_sampling, spec_resolve_sampling, SamplingStrategy};

verus! {

/// Everything that can abort a generation run, by stage.
#[derive(Debug, Clone, Copy, PartialEq, Eq, Structural)]
pub enum GenerationError {
    /// The vocabulary resolves no end-of-sequence id and none was supplied;
    /// fatal at configuration construction, before any step runs.
    MissingEosToken,
    /// Zero input tokens at run start; rejected before the loop.
    EmptyPrompt,
    /// Invalid sampling input or a strategy computation failure, such as an
    /// all-masked distribution after banning.
    Sampling,
    /// The tokenizer or the model-forward collaborator failed; propagated
    /// unchanged, never retried by the core.
    Backend,
}

/// Mutable state of one generation run: the prompt's tokens, set once at run
/// start, the tokens produced so far, and whether end-of-sequence was hit.
///
/// The fields are exposed so that contracts can speak of them; the finished
/// flag is monotonic through the library's own operations (only [`clear`]
/// lowers it), not against a caller assigning the fields directly.
///
/// [`clear`]: GenerationCache::clear
pub struct GenerationCache {
    pub input_tokens: Vec<u32>,
    pub output_tokens: Vec<u32>,
    pub finished: bool,
}

impl GenerationCache {
    /// A fresh cache holding the encoded prompt (or nothing), no output and
    /// an unfinished run.
    pub fn new(tokens: Option<Vec<u32>>) -> (r: GenerationCache)
        ensures
            r.input_tokens@ == match tokens {
                Some(t) => t@,
                None => Seq::<u32>::empty(),
            },
            r.output_tokens@ == Seq::<u32>::empty(),
            !r.finished,
    {
        let tokens = match tokens {
            Some(tokens) => tokens,
            None => Vec::new(),
        };
        GenerationCache { input_tokens: tokens, output_tokens: Vec::new(), finished: false }
    }

    /// The caller-initiated reset: drops the produced tokens and the finished
    /// flag, keeping the prompt; the one way a run leaves a terminal state.
    pub fn clear(&mut self)
        ensures
            final(self).input_tokens@ == old(self).input_tokens@,
            final(self).output_tokens@ == Seq::<u32>::empty(),
            !final(self).finished,
    {
        self.output_tokens.clear();
        self.finished = false;
    }

    /// The prompt tokens this run conditions on.
    pub fn input_tokens(&self) -> (r: Vec<u32>)
        ensures
            r@ == self.input_tokens@,
    {
        copy_tokens(&self.input_tokens)
    }

    /// The tokens produced so far, in production order.
    pub fn output_tokens(&self) -> (r: Vec<u32>)
        ensures
            r@ == self.output_tokens@,
    {
        copy_tokens(&self.output_tokens)
    }

    /// Whether end-of-sequence has been sampled.
    pub fn finished(&self) -> (r: bool)
        ensures
            r == self.finished,
    {
        self.finished
    }
}

/// An element-for-element copy of a token vector.
pub(crate) fn copy_tokens(src: &Vec<u32>) -> (r: Vec<u32>)
    ensures
        r@ == src@,
{
    let mut r: Vec<u32> = Vec::new();
    let mut i: usize = 0;
    while i < src.len()
        invariant
            i <= src@.len(),
            r@ == src@.take(i as int),
        decreases src@.len() - i,
    {
        r.push(src[i]);
        proof {
            assert(src@.take(i + 1 as int) =~= src@.take(i as int).push(src@[i as int]));
        }
        i = i + 1;
    }
    proof {
        assert(src@.take(src@.len() as int) =~= src@);
    }
    r
}

/// Immutable-after-construction bundle owned by one generation run: the
/// tokenizer handle, the resolved sampling strategy, the effective seed, the
/// end-of-sequence id, the new-token budget, the ban-list and the literal
/// prompt.
pub struct GenerationConfig<T> {
    pub tokenizer: Tokenizer,
    pub strategy: SamplingStrategy<T>,
    pub seed: u64,
    pub eos_token: u32,
    pub max_new_tokens: usize,
    pub ban_token_ids: Vec<u32>,
    pub prompt: String,
}

impl<T> GenerationConfig<T> {
    /// Resolve the user-facing knobs into a run configuration: the sampling
    /// strategy by the fixed precedence rule, the seed verbatim when given
    /// (drawn once from the process random source otherwise), the
    /// end-of-sequence id verbatim when given (resolved from the vocabulary
    /// literal otherwise, fatally missing when that lookup fails), a
    /// new-token budget of 256 by default and an empty ban-list by default.
    pub fn new(
        tokenizer: Tokenizer,
        prompt: String,
        eos_token: Option<u32>,
        max_new_tokens: Option<usize>,
        temperature: Option<T>,
        top_p: Option<T>,
        top_k: Option<usize>,
        ban_token_ids: Option<Vec<u32>>,
        seed: Option<u64>,
        fallback_temperature: T,
    ) -> (r: Result<GenerationConfig<T>, GenerationError>)
        ensures
            r matches Ok(c) ==> {
                &&& c.strategy == spec_resolve_sampling(
                    top_k,
                    top_p,
                    temperature,
                    fallback_temperature,
                )
                &&& (seed matches Some(s) ==> c.seed == s)
                &&& (eos_token matches Some(e) ==> c.eos_token == e)
                &&& c.max_new_tokens == match max_new_tokens {
                    Some(m) => m,
                    None => 256usize,
                }
                &&& c.ban_token_ids@ == match ban_token_ids {
                    Some(b) => b@,
                    None => Seq::<u32>::empty(),
                }
                &&& c.prompt@ == prompt@
                &&& c.tokenizer == tokenizer
                &&& (eos_token is None ==> spec_token_to_id(tokenizer, "<|eos|>"@) == Some(
                    c.eos_token,
                ))
            },
            r matches Err(e) ==> e == GenerationError::MissingEosToken && eos_token is None
                && spec_token_to_id(tokenizer, "<|eos|>"@) is None,
            eos_token is Some ==> r is Ok,
            eos_token is None && spec_token_to_id(tokenizer, "<|eos|>"@) is Some ==> r is Ok,
    {
        let strategy = resolve_sampling(top_k, top_p, temperature, fallback_temperature);
        let seed = match seed {
            Some(s) => s,
            None => random_seed(),
        };
        let eos_token = match eos_token {
            Some(e) => e,
            None => match token_to_id(&tokenizer, "<|eos|>") {
                Some(id) => id,
                None => {
                    return Err(GenerationError::MissingEosToken);
                },
            },
        };
        let max_new_tokens = match max_new_tokens {
            Some(m) => m,
            None => 256,
        };
        let ban_token_ids = match ban_token_ids {
            Some(b) => b,
            None => Vec::new(),
        };
        Ok(
            GenerationConfig {
                tokenizer,
                strategy,
                seed,
                eos_token,
                max_new_tokens,
                ban_token_ids,
                prompt,
            },
        )
    }

    /// The all-default configuration: every knob absent, so deterministic
    /// arg-max decoding, a random seed, the vocabulary's end-of-sequence id
    /// and a budget of 256 new tokens.
    pub fn default(tokenizer: Tokenizer, prompt: String) -> (r: Result<
        GenerationConfig<T>,
        GenerationError,
    >)
        ensures
            r matches Ok(c) ==> {
                &&& c.strategy == SamplingStrategy::<T>::ArgMax
                &&& c.max_new_tokens == 256usize
                &&& c.ban_token_ids@ == Seq::<u32>::empty()
                &&& c.prompt@ == prompt@
                &&& c.tokenizer == tokenizer
                &&& spec_token_to_id(tokenizer, "<|eos|>"@) == Some(c.eos_token)
            },
            r matches Err(e) ==> e == GenerationError::MissingEosToken && spec_token_to_id(
                tokenizer,
                "<|eos|>"@,
            ) is None,
            spec_token_to_id(tokenizer, "<|eos|>"@) is Some ==> r is Ok,
    {
        let eos_token = match token_to_id(&tokenizer, "<|eos|>") {
            Some(id) => id,
            None => {
                return Err(GenerationError::MissingEosToken);
            },
        };
        let seed = random_seed();
        Ok(
            GenerationConfig {
                tokenizer,
                strategy: SamplingStrategy::ArgMax,
                seed,
                eos_token,
                max_new_tokens: 256,
                ban_token_ids: Vec::new(),
                prompt,
            },
        )
    }
}

} // verus!
