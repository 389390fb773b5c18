//! The trusted boundary to the two external collaborators the engine core
//! needs values from: the tokenizer (vocabulary lookup, encoding, decoding)
//! and the process-wide random source used when no seed is supplied.
//!
//! Each item here wraps exactly one outside call; nothing is promised of the
//! results beyond what the outside code plainly shows, and every decision
//! taken on a result happens in verified code.

use vstd::prelude::*;

use tokenizers::Tokenizer;

verus! {

#[verifier::external_type_specification]
#[verifier::external_body]
pub struct ExTokenizer(Tokenizer);

/// The id a tokenizer's vocabulary (added tokens included) assigns to a
/// literal, or `None` when the vocabulary lacks it: the result of
/// `Tokenizer::token_to_id`, a pure lookup in the tokenizer value.
pub uninterp spec fn spec_token_to_id(tokenizer: Tokenizer, token: Seq<char>) -> Option<u32>;

/// The text a tokenizer decodes token ids back into, or `None` when it
/// reports an error: the result of `Tokenizer::decode`, a function of the
/// tokenizer value, the ids and the skip flag.
pub uninterp spec fn spec_decode_text(
    tokenizer: Tokenizer,
    ids: Seq<u32>,
    skip_special_tokens: bool,
) -> Option<Seq<char>>;

/// Relies on `tokenizers::Tokenizer::token_to_id`: looks a literal up in the
/// vocabulary (added tokens included) and returns its reserved id, or `None`
/// when the vocabulary does not contain the literal. The lookup reads only
/// the tokenizer value, so its result carries the lookup's name.
#[verifier::external_body]
pub(crate) fn token_to_id(tokenizer: &Tokenizer, token: &str) -> (r: Option<u32>)
    ensures
        r == spec_token_to_id(*tokenizer, token@),
{
    tokenizer.token_to_id(token)
}

/// Relies on `tokenizers::Tokenizer::encode` (with `add_special_tokens`
/// false) and `Encoding::get_ids`: turns text into token ids, or `None` when
/// the tokenizer reports an error. Unlike the lookup and the decode, the
/// result carries no name: a byte-pair model with dropout set draws fresh
/// randomness on every call, so two encodings of the same text may differ,
/// and nothing is promised of which ids come back.
#[verifier::external_body]
pub(crate) fn encode_ids(tokenizer: &Tokenizer, text: &str) -> (r: Option<Vec<u32>>) {
    match tokenizer.encode(text, false) {
        Ok(encoding) => Some(encoding.get_ids().to_vec()),
        Err(_) => None,
    }
}

/// Relies on `tokenizers::Tokenizer::decode`: turns token ids back into text,
/// or `None` when the tokenizer reports an error.
#[verifier::external_body]
pub(crate) fn decode_text(tokenizer: &Tokenizer, ids: &[u32], skip_special_tokens: bool) -> (r:
    Option<String>)
    ensures
        r matches Some(text) ==> spec_decode_text(*tokenizer, ids@, skip_special_tokens) == Some(
            text@,
        ),
        r is None ==> spec_decode_text(*tokenizer, ids@, skip_special_tokens) is None,
{
    match tokenizer.decode(ids, skip_special_tokens) {
        Ok(text) => Some(text),
        Err(_) => None,
    }
}

/// Relies on `rand::random`: draws one value from the process-wide random
/// source; nothing is, or could be, promised of the outcome.
#[verifier::external_body]
pub(crate) fn random_seed() -> u64 {
    rand::random::<u64>()
}

} // verus!
