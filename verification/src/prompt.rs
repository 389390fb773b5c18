//! The prompt composer: builds the literal conditioning string from the
//! caller's free text and the control tags, in one fixed section order.

use vstd::prelude::*;
use vstd::string::*;

use crate::tags::{AspectRatioTag, IdentityTag, LengthTag, RatingTag, ReservedTag, SpecialTag};

verus! {

/// The exact character sequence the composer produces: begin-of-sequence,
/// the copyright section, the character section, the three condition tags,
/// then the general section opened with the caller's free text; in completion
/// mode the identity tag and the input-end marker close the record.
pub open spec fn spec_compose_prompt(
    copyright: Seq<char>,
    character: Seq<char>,
    rating: RatingTag,
    aspect_ratio: AspectRatioTag,
    length: LengthTag,
    identity_level: IdentityTag,
    prompt: Seq<char>,
    do_completion: bool,
) -> Seq<char> {
    let head = ReservedTag::Bos.spec_tag() + ReservedTag::CopyrightStart.spec_tag() + copyright
        + ReservedTag::CopyrightEnd.spec_tag() + ReservedTag::CharacterStart.spec_tag() + character
        + ReservedTag::CharacterEnd.spec_tag() + rating.spec_tag() + aspect_ratio.spec_tag()
        + length.spec_tag() + ReservedTag::GeneralStart.spec_tag() + prompt;
    if do_completion {
        head + identity_level.spec_tag() + ReservedTag::InputEnd.spec_tag()
    } else {
        head
    }
}

/// Compose the model's input prompt. The copyright, character and free-text
/// arguments are inserted verbatim, with no escaping and no validation; the
/// result is pinned byte for byte by `spec_compose_prompt`.
pub fn compose_prompt_v2(
    copyright: &str,
    character: &str,
    rating: RatingTag,
    aspect_ratio: AspectRatioTag,
    length: LengthTag,
    identity_level: IdentityTag,
    prompt: &str,
    do_completion: bool,
) -> (r: String)
    ensures
        r@ == spec_compose_prompt(
            copyright@,
            character@,
            rating,
            aspect_ratio,
            length,
            identity_level,
            prompt@,
            do_completion,
        ),
{
    let mut out = String::new();
    let bos = ReservedTag::Bos.to_tag();
    out.append(bos.as_str());
    let copyright_start = ReservedTag::CopyrightStart.to_tag();
    out.append(copyright_start.as_str());
    out.append(copyright);
    let copyright_end = ReservedTag::CopyrightEnd.to_tag();
    out.append(copyright_end.as_str());
    let character_start = ReservedTag::CharacterStart.to_tag();
    out.append(character_start.as_str());
    out.append(character);
    let character_end = ReservedTag::CharacterEnd.to_tag();
    out.append(character_end.as_str());
    let rating_tag = rating.to_tag();
    out.append(rating_tag.as_str());
    let aspect_ratio_tag = aspect_ratio.to_tag();
    out.append(aspect_ratio_tag.as_str());
    let length_tag = length.to_tag();
    out.append(length_tag.as_str());
    let general_start = ReservedTag::GeneralStart.to_tag();
    out.append(general_start.as_str());
    out.append(prompt);
    if do_completion {
        let identity_tag = identity_level.to_tag();
        out.append(identity_tag.as_str());
        let input_end = ReservedTag::InputEnd.to_tag();
        out.append(input_end.as_str());
    }
    proof {
        assert(out@ =~= spec_compose_prompt(
            copyright@,
            character@,
            rating,
            aspect_ratio,
            length,
            identity_level,
            prompt@,
            do_completion,
        ));
    }
    out
}

/// The composer is a pure function: two results composed from identical
/// inputs are identical strings, with no hidden state between calls.
pub proof fn lemma_compose_prompt_pure(
    r1: Seq<char>,
    r2: Seq<char>,
    copyright: Seq<char>,
    character: Seq<char>,
    rating: RatingTag,
    aspect_ratio: AspectRatioTag,
    length: LengthTag,
    identity_level: IdentityTag,
    prompt: Seq<char>,
    do_completion: bool,
)
    requires
        r1 == spec_compose_prompt(
            copyright,
            character,
            rating,
            aspect_ratio,
            length,
            identity_level,
            prompt,
            do_completion,
        ),
        r2 == spec_compose_prompt(
            copyright,
            character,
            rating,
            aspect_ratio,
            length,
            identity_level,
            prompt,
            do_completion,
        ),
    ensures
        r1 == r2,
{
}

} // verus!
