//! The generation engine: the incremental context-window rule, the per-step
//! cache advance, the batch loop that runs a cache to completion, and the
//! structural filtering of decoded output.
//!
//! The engine is written once, generically, against the one capability a
//! model family must provide: produce the next token for the current cache.
//! Model families implement [`TextGeneration`] by feeding the context window
//! to their forward pass, sampling the resulting logits, and recording the
//! sampled token through [`record_token`]; every decision around that step is
//! verified here.

use vstd::prelude::*;
use vstd::string::*;

use crate::external::{decode_text, encode_ids, spec_decode_text};
use crate::generation::{copy_tokens, GenerationCache, GenerationConfig, GenerationError};
use crate::tags::{ReservedTag, SpecialTag};

verus! {

/// The context window fed to the model for the next step, together with its
/// position offset: all input tokens on the first step of a cache, and only
/// the single most recently produced token afterwards, the model being
/// assumed to retain earlier context internally.
pub fn context_window(cache: &GenerationCache) -> (r: (Vec<u32>, usize))
    requires
        cache.input_tokens@.len() + cache.output_tokens@.len() <= usize::MAX,
    ensures
        cache.output_tokens@.len() == 0 ==> r.0@ == cache.input_tokens@ && r.1 == 0,
        cache.output_tokens@.len() > 0 ==> r.0@ == seq![cache.output_tokens@.last()] && r.1
            == cache.input_tokens@.len() + cache.output_tokens@.len() - 1,
{
    if cache.output_tokens.len() == 0 {
        (copy_tokens(&cache.input_tokens), 0)
    } else {
        let last = cache.output_tokens[cache.output_tokens.len() - 1];
        let start_pos = cache.input_tokens.len() + cache.output_tokens.len() - 1;
        (vec![last], start_pos)
    }
}

/// Record one sampled token: append it to the produced tokens and raise the
/// finished flag exactly when it is the end-of-sequence id. The flag is
/// monotonic: once raised, no step lowers it.
pub fn record_token(cache: &mut GenerationCache, eos_token: u32, token: u32)
    ensures
        final(cache).input_tokens@ == old(cache).input_tokens@,
        final(cache).output_tokens@ == old(cache).output_tokens@.push(token),
        final(cache).finished == (old(cache).finished || token == eos_token),
{
    cache.output_tokens.push(token);
    if token == eos_token {
        cache.finished = true;
    }
}

/// The decoded tags that survive structural filtering, in order.
pub open spec fn spec_keep_tags(tags: Seq<Seq<char>>) -> Seq<Seq<char>>
    decreases tags.len(),
{
    if tags.len() == 0 {
        Seq::empty()
    } else {
        let rest = spec_keep_tags(tags.drop_last());
        if ReservedTag::spec_is_special(tags.last()) {
            rest
        } else {
            rest.push(tags.last())
        }
    }
}

/// Tags joined with the output separator, one separator between neighbours.
pub open spec fn spec_join_tags(tags: Seq<Seq<char>>) -> Seq<char>
    decreases tags.len(),
{
    if tags.len() == 0 {
        Seq::empty()
    } else if tags.len() == 1 {
        tags[0]
    } else {
        spec_join_tags(tags.drop_last()) + ", "@ + tags.last()
    }
}

/// The batch output text: structural tokens removed, the rest joined.
pub open spec fn spec_join_special_filtered(tags: Seq<Seq<char>>) -> Seq<char> {
    spec_join_tags(spec_keep_tags(tags))
}

/// Join decoded tags with `", "`, excluding every structural literal.
pub fn join_tags(tags: &Vec<String>) -> (r: String)
    ensures
        r@ == spec_join_special_filtered(tags.deep_view()),
{
    let ghost dv = tags.deep_view();
    let mut out = String::new();
    let mut first: bool = true;
    let mut i: usize = 0;
    proof {
        assert(dv.take(0) =~= Seq::<Seq<char>>::empty());
    }
    while i < tags.len()
        invariant
            i <= tags@.len(),
            dv == tags.deep_view(),
            dv.len() == tags@.len(),
            first == (spec_keep_tags(dv.take(i as int)).len() == 0),
            out@ == spec_join_tags(spec_keep_tags(dv.take(i as int))),
        decreases tags@.len() - i,
    {
        let tag: &String = &tags[i];
        proof {
            let pre = spec_keep_tags(dv.take(i as int));
            let t = dv[i as int];
            assert(t == tags@[i as int]@);
            assert(dv.take(i as int + 1) =~= dv.take(i as int).push(t));
            assert(dv.take(i as int).push(t).drop_last() =~= dv.take(i as int));
            assert(dv.take(i as int).push(t).last() == t);
            if ReservedTag::spec_is_special(t) {
                assert(spec_keep_tags(dv.take(i as int + 1)) == pre);
            } else {
                assert(spec_keep_tags(dv.take(i as int + 1)) == pre.push(t));
                assert(pre.push(t).drop_last() =~= pre);
                assert(pre.push(t).last() == t);
                if pre.len() == 0 {
                    assert(pre.push(t)[0] == t);
                    assert(spec_join_tags(pre.push(t)) == t);
                } else {
                    assert(spec_join_tags(pre.push(t)) == spec_join_tags(pre) + ", "@ + t);
                }
            }
        }
        if !ReservedTag::is_special(tag.as_str()) {
            if !first {
                out.append(", ");
            }
            out.append(tag.as_str());
            first = false;
        }
        i = i + 1;
    }
    proof {
        assert(dv.take(tags@.len() as int) =~= dv);
    }
    out
}

/// Structural filtering: no tag that survives the filter is a structural
/// literal, whatever the decoded sequence was.
pub proof fn lemma_keep_tags_excludes_special(tags: Seq<Seq<char>>)
    ensures
        forall|i: int|
            0 <= i < spec_keep_tags(tags).len() ==> !ReservedTag::spec_is_special(
                #[trigger] spec_keep_tags(tags)[i],
            ),
    decreases tags.len(),
{
    if tags.len() == 0 {
    } else {
        lemma_keep_tags_excludes_special(tags.drop_last());
        let rest = spec_keep_tags(tags.drop_last());
        if ReservedTag::spec_is_special(tags.last()) {
            assert(spec_keep_tags(tags) == rest);
        } else {
            assert(spec_keep_tags(tags) == rest.push(tags.last()));
            assert forall|i: int| 0 <= i < spec_keep_tags(tags).len() implies !ReservedTag::spec_is_special(
                spec_keep_tags(tags)[i],
            ) by {
                if i < rest.len() {
                    assert(spec_keep_tags(tags)[i] == rest[i]);
                } else {
                    assert(spec_keep_tags(tags)[i] == tags.last());
                }
            }
        }
    }
}

/// The shape of one completed batch run: `out` is the token sequence the
/// steps produced and `tags` its one-token decodes, in production order. The
/// run spends the whole budget unless the end-of-sequence id stops it, the
/// end id appears only as the last token, and a nonzero budget produces at
/// least one token.
pub open spec fn spec_run_output<T>(
    config: GenerationConfig<T>,
    out: Seq<u32>,
    tags: Seq<Seq<char>>,
) -> bool {
    &&& tags.len() == out.len()
    &&& out.len() <= config.max_new_tokens
    &&& (config.max_new_tokens > 0 ==> out.len() >= 1)
    &&& (forall|i: int| 0 <= i < out.len() - 1 ==> out[i] != config.eos_token)
    &&& (out.len() < config.max_new_tokens ==> out.len() > 0 && out[out.len() - 1]
        == config.eos_token)
    &&& (forall|i: int|
        0 <= i < out.len() ==> spec_decode_text(config.tokenizer, seq![out[i]], false) == Some(
            #[trigger] tags[i],
        ))
}

/// Some run-shaped token sequence has `tags` as its one-token decodes.
pub open spec fn spec_some_run_output<T>(config: GenerationConfig<T>, tags: Seq<Seq<char>>) -> bool {
    exists|out: Seq<u32>| #[trigger] spec_run_output(config, out, tags)
}

/// `text` is the filtered join of the one-token decodes of some run-shaped
/// token sequence.
pub open spec fn spec_generated_text<T>(config: GenerationConfig<T>, text: Seq<char>) -> bool {
    exists|out: Seq<u32>, tags: Seq<Seq<char>>|
        #[trigger] spec_run_output(config, out, tags) && text == spec_join_special_filtered(tags)
}

/// One model family driving one generation run: the family supplies the
/// per-step token choice (its forward pass plus sampling) and the reset of
/// whatever context its backend retains between runs; the engine supplies
/// the loop, the termination rule and the decoding of the result.
pub trait TextGeneration<T>: Sized {
    /// Advance the run by exactly one step: feed the model the context
    /// window of `cache`, sample one token, and record it. This is also the
    /// single-step driving mode: an external caller may interleave calls to
    /// it with other work, one token per call.
    ///
    /// Implementations compute the sampled token however they will, but on
    /// success the cache advances by exactly that token, and on failure the
    /// cache is left as it was.
    fn get_next_token(&mut self, config: &GenerationConfig<T>, cache: &mut GenerationCache) -> (r:
        Result<u32, GenerationError>)
        requires
            old(cache).input_tokens@.len() + old(cache).output_tokens@.len() < usize::MAX,
        ensures
            r matches Ok(token) ==> {
                &&& final(cache).input_tokens@ == old(cache).input_tokens@
                &&& final(cache).output_tokens@ == old(cache).output_tokens@.push(token)
                &&& final(cache).finished == (old(cache).finished || token == config.eos_token)
            },
            r is Err ==> {
                &&& final(cache).input_tokens@ == old(cache).input_tokens@
                &&& final(cache).output_tokens@ == old(cache).output_tokens@
                &&& final(cache).finished == old(cache).finished
            },
    ;

    /// Reset whatever per-run context the model backend holds, so the next
    /// run starts from a clean state; called by the engine after every batch
    /// run.
    fn clear_cache(&mut self);

    /// Decode token ids into text through the run's tokenizer, without
    /// skipping special tokens: the text is exactly the tokenizer's decode of
    /// the ids, and a tokenizer failure is a backend error, nothing else.
    fn decode(&self, config: &GenerationConfig<T>, tokens: &[u32]) -> (r: Result<
        String,
        GenerationError,
    >)
        ensures
            r matches Ok(text) ==> spec_decode_text(config.tokenizer, tokens@, false) == Some(
                text@,
            ),
            r matches Err(e) ==> e == GenerationError::Backend && spec_decode_text(
                config.tokenizer,
                tokens@,
                false,
            ) is None,
    {
        match decode_text(&config.tokenizer, tokens, false) {
            Some(text) => Ok(text),
            None => Err(GenerationError::Backend),
        }
    }

    /// Run a fresh cache to its terminal state: step until the sampled token
    /// is the end-of-sequence id, or until the new-token budget is spent,
    /// whichever comes first. An empty prompt is rejected before the first
    /// step. On success with the budget exhausted and no end-of-sequence the
    /// run is unfinished and produced exactly the budget; on success with
    /// end-of-sequence the run is finished, the last produced token is the
    /// end-of-sequence id and no earlier one is. On failure the cache keeps
    /// the consistent state the run had reached.
    fn advance_until_finished(
        &mut self,
        config: &GenerationConfig<T>,
        cache: &mut GenerationCache,
    ) -> (r: Result<(), GenerationError>)
        requires
            old(cache).output_tokens@.len() == 0,
            !old(cache).finished,
            old(cache).input_tokens@.len() + config.max_new_tokens < usize::MAX,
        ensures
            final(cache).input_tokens@ == old(cache).input_tokens@,
            final(cache).output_tokens@.len() <= config.max_new_tokens,
            old(cache).input_tokens@.len() == 0 ==> r == Err::<(), GenerationError>(
                GenerationError::EmptyPrompt,
            ) && final(cache).output_tokens@.len() == 0 && !final(cache).finished,
            r is Err ==> !final(cache).finished && forall|i: int|
                0 <= i < final(cache).output_tokens@.len() ==> final(cache).output_tokens@[i]
                    != config.eos_token,
            config.max_new_tokens == 0 && old(cache).input_tokens@.len() > 0 ==> r is Ok,
            r is Ok ==> ({
                let out = final(cache).output_tokens@;
                &&& old(cache).input_tokens@.len() > 0
                &&& (!final(cache).finished ==> out.len() == config.max_new_tokens && forall|
                    i: int,
                |
                    0 <= i < out.len() ==> out[i] != config.eos_token)
                &&& (final(cache).finished ==> out.len() >= 1 && out[out.len() - 1]
                    == config.eos_token && forall|i: int|
                    0 <= i < out.len() - 1 ==> out[i] != config.eos_token)
            }),
    {
        if cache.input_tokens.len() == 0 {
            return Err(GenerationError::EmptyPrompt);
        }
        let mut steps: usize = 0;
        while steps < config.max_new_tokens
            invariant
                steps <= config.max_new_tokens,
                cache.input_tokens@ == old(cache).input_tokens@,
                cache.input_tokens@.len() > 0,
                cache.output_tokens@.len() == steps,
                !cache.finished,
                forall|i: int| 0 <= i < steps ==> cache.output_tokens@[i] != config.eos_token,
                old(cache).input_tokens@.len() + config.max_new_tokens < usize::MAX,
            decreases config.max_new_tokens - steps,
        {
            let step_result = self.get_next_token(config, cache);
            match step_result {
                Ok(_) => {},
                Err(e) => {
                    return Err(e);
                },
            }
            steps = steps + 1;
            if cache.finished {
                return Ok(());
            }
        }
        Ok(())
    }

    /// Batch mode up to decoding: encode the prompt, run the cache to its
    /// terminal state, reset the backend's per-run context, and decode each
    /// produced token separately, in production order. On success the result
    /// is the one-token decodes of a run-shaped token sequence. A prompt the
    /// tokenizer fails to encode aborts as a backend error, and one that
    /// encodes to nothing as the empty-prompt error, both before any step
    /// runs; neither case is pinned by contract, because what a prompt
    /// encodes to is not a function of the arguments (see `encode_ids`).
    fn generate_tokens(&mut self, config: &GenerationConfig<T>) -> (r: Result<
        Vec<String>,
        GenerationError,
    >)
        ensures
            r matches Ok(tags) ==> spec_some_run_output(*config, tags.deep_view()),
    {
        let ids = match encode_ids(&config.tokenizer, config.prompt.as_str()) {
            Some(ids) => ids,
            None => {
                return Err(GenerationError::Backend);
            },
        };
        if ids.len() == 0 {
            return Err(GenerationError::EmptyPrompt);
        }
        if ids.len() >= usize::MAX - config.max_new_tokens {
            // a machine-limit rejection: the run could never address this
            // many tokens; no collaborator is consulted past this point
            return Err(GenerationError::Backend);
        }
        let mut cache = GenerationCache::new(Some(ids));
        match self.advance_until_finished(config, &mut cache) {
            Ok(_) => {},
            Err(e) => {
                return Err(e);
            },
        }
        self.clear_cache();
        let ghost produced = cache.output_tokens@;
        let mut decoded: Vec<String> = Vec::new();
        let mut i: usize = 0;
        while i < cache.output_tokens.len()
            invariant
                i <= cache.output_tokens@.len(),
                cache.output_tokens@ == produced,
                decoded@.len() == i,
                forall|j: int|
                    0 <= j < i ==> spec_decode_text(config.tokenizer, seq![produced[j]], false)
                        == Some(#[trigger] decoded@[j]@),
            decreases cache.output_tokens@.len() - i,
        {
            let one: Vec<u32> = vec![cache.output_tokens[i]];
            proof {
                assert(one@ =~= seq![produced[i as int]]);
            }
            match self.decode(config, one.as_slice()) {
                Ok(text) => decoded.push(text),
                Err(e) => {
                    return Err(e);
                },
            }
            i = i + 1;
        }
        proof {
            assert forall|j: int| 0 <= j < produced.len() implies spec_decode_text(
                config.tokenizer,
                seq![produced[j]],
                false,
            ) == Some(#[trigger] decoded.deep_view()[j]) by {
                assert(decoded.deep_view()[j] == decoded@[j]@);
            }
            assert(spec_run_output(*config, produced, decoded.deep_view()));
            assert(spec_some_run_output(*config, decoded.deep_view()));
        }
        Ok(decoded)
    }

    /// Batch mode: run to the terminal state, then return the decoded tags
    /// with every structural literal removed, joined by the output
    /// separator: the text is exactly the filtered join of the one-token
    /// decodes of a run-shaped token sequence.
    fn generate(&mut self, config: &GenerationConfig<T>) -> (r: Result<String, GenerationError>)
        ensures
            r matches Ok(text) ==> spec_generated_text(*config, text@),
    {
        let tokens = match self.generate_tokens(config) {
            Ok(tokens) => tokens,
            Err(e) => {
                return Err(e);
            },
        };
        let text = join_tags(&tokens);
        proof {
            let out = choose|out: Seq<u32>| #[trigger] spec_run_output(
                *config,
                out,
                tokens.deep_view(),
            );
            assert(spec_run_output(*config, out, tokens.deep_view()));
            assert(text@ == spec_join_special_filtered(tokens.deep_view()));
            assert(spec_generated_text(*config, text@));
        }
        Ok(text)
    }
}

} // verus!
