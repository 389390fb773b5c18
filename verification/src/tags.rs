//! The closed set of control tokens the model conditions on: one enum per
//! metadata axis (length, aspect ratio, rating, identity disclosure) plus the
//! structural tokens, each mapped bijectively to a fixed literal string.

use vstd::prelude::*;
use vstd::string::*;

verus! {

/// A literal failed to parse as a member of a closed tag family.
#[derive(Debug, Clone, Copy, PartialEq, Eq, Structural)]
pub struct InvalidTagError;

/// `p` is a prefix of `s`.
pub open spec fn spec_has_prefix(s: Seq<char>, p: Seq<char>) -> bool {
    p.len() <= s.len() && s.subrange(0, p.len() as int) == p
}

/// `p` is a suffix of `s`.
pub open spec fn spec_has_suffix(s: Seq<char>, p: Seq<char>) -> bool {
    p.len() <= s.len() && s.subrange(s.len() - p.len(), s.len() as int) == p
}

/// Exact equality of two string slices, by contents.
fn str_eq(a: &str, b: &str) -> (r: bool)
    ensures
        r == (a@ == b@),
{
    let sa: String = a.to_owned();
    let sb: String = b.to_owned();
    sa == sb
}

fn str_has_prefix(s: &str, p: &str) -> (r: bool)
    ensures
        r == spec_has_prefix(s@, p@),
{
    let n = s.unicode_len();
    let m = p.unicode_len();
    if m > n {
        false
    } else {
        let head = s.substring_char(0, m);
        str_eq(head, p)
    }
}

fn str_has_suffix(s: &str, p: &str) -> (r: bool)
    ensures
        r == spec_has_suffix(s@, p@),
{
    let n = s.unicode_len();
    let m = p.unicode_len();
    if m > n {
        false
    } else {
        let tail = s.substring_char(n - m, n);
        str_eq(tail, p)
    }
}

/// A family of control tokens: each value encodes to one fixed literal, and a
/// decoded literal can be classified as belonging to the family.
pub trait SpecialTag: Sized {
    /// The canonical literal for this tag value.
    spec fn spec_tag(&self) -> Seq<char>;

    /// Whether a literal is a structural token of this family.
    spec fn spec_is_special(tag: Seq<char>) -> bool;

    /// Encode this tag value as its literal string.
    fn to_tag(&self) -> (r: String)
        ensures
            r@ == self.spec_tag(),
    ;

    /// Classify a decoded literal as structural for this family.
    fn is_special(tag: &str) -> (r: bool)
        ensures
            r == Self::spec_is_special(tag@),
    ;
}

/// Target length of the generated tag list.
#[derive(Debug, Clone, Copy, PartialEq, Eq, Structural)]
pub enum LengthTag {
    VeryShort,
    Short,
    Medium,
    Long,
    VeryLong,
}

impl SpecialTag for LengthTag {
    open spec fn spec_tag(&self) -> Seq<char> {
        match self {
            LengthTag::VeryShort => "<|length:very_short|>"@,
            LengthTag::Short => "<|length:short|>"@,
            LengthTag::Medium => "<|length:medium|>"@,
            LengthTag::Long => "<|length:long|>"@,
            LengthTag::VeryLong => "<|length:very_long|>"@,
        }
    }

    open spec fn spec_is_special(tag: Seq<char>) -> bool {
        spec_has_prefix(tag, "<|length:"@) && spec_has_suffix(tag, "|>"@)
    }

    fn to_tag(&self) -> (r: String) {
        match self {
            LengthTag::VeryShort => "<|length:very_short|>".to_owned(),
            LengthTag::Short => "<|length:short|>".to_owned(),
            LengthTag::Medium => "<|length:medium|>".to_owned(),
            LengthTag::Long => "<|length:long|>".to_owned(),
            LengthTag::VeryLong => "<|length:very_long|>".to_owned(),
        }
    }

    fn is_special(tag: &str) -> (r: bool) {
        str_has_prefix(tag, "<|length:") && str_has_suffix(tag, "|>")
    }
}

/// Result of parsing a length name, pinned literal by literal.
pub open spec fn spec_length_from_str(s: Seq<char>) -> Result<LengthTag, InvalidTagError> {
    if s == "very_short"@ {
        Ok(LengthTag::VeryShort)
    } else if s == "short"@ {
        Ok(LengthTag::Short)
    } else if s == "medium"@ {
        Ok(LengthTag::Medium)
    } else if s == "long"@ {
        Ok(LengthTag::Long)
    } else if s == "very_long"@ {
        Ok(LengthTag::VeryLong)
    } else {
        Err(InvalidTagError)
    }
}

impl LengthTag {
    /// Parse the user-facing name of a length tag; anything outside the
    /// closed set is an `InvalidTagError`.
    pub fn from_str(s: &str) -> (r: Result<LengthTag, InvalidTagError>)
        ensures
            r == spec_length_from_str(s@),
    {
        if str_eq(s, "very_short") {
            Ok(LengthTag::VeryShort)
        } else if str_eq(s, "short") {
            Ok(LengthTag::Short)
        } else if str_eq(s, "medium") {
            Ok(LengthTag::Medium)
        } else if str_eq(s, "long") {
            Ok(LengthTag::Long)
        } else if str_eq(s, "very_long") {
            Ok(LengthTag::VeryLong)
        } else {
            Err(InvalidTagError)
        }
    }
}

/// Canvas aspect ratio the generated tags should describe.
#[derive(Debug, Clone, Copy, PartialEq, Eq, Structural)]
pub enum AspectRatioTag {
    UltraWide,
    Wide,
    Square,
    Tall,
    UltraTall,
}

impl SpecialTag for AspectRatioTag {
    open spec fn spec_tag(&self) -> Seq<char> {
        match self {
            AspectRatioTag::UltraWide => "<|aspect_ratio:ultra_wide|>"@,
            AspectRatioTag::Wide => "<|aspect_ratio:wide|>"@,
            AspectRatioTag::Square => "<|aspect_ratio:square|>"@,
            AspectRatioTag::Tall => "<|aspect_ratio:tall|>"@,
            AspectRatioTag::UltraTall => "<|aspect_ratio:ultra_tall|>"@,
        }
    }

    open spec fn spec_is_special(tag: Seq<char>) -> bool {
        spec_has_prefix(tag, "<|aspect_ratio:"@) && spec_has_suffix(tag, "|>"@)
    }

    fn to_tag(&self) -> (r: String) {
        match self {
            AspectRatioTag::UltraWide => "<|aspect_ratio:ultra_wide|>".to_owned(),
            AspectRatioTag::Wide => "<|aspect_ratio:wide|>".to_owned(),
            AspectRatioTag::Square => "<|aspect_ratio:square|>".to_owned(),
            AspectRatioTag::Tall => "<|aspect_ratio:tall|>".to_owned(),
            AspectRatioTag::UltraTall => "<|aspect_ratio:ultra_tall|>".to_owned(),
        }
    }

    fn is_special(tag: &str) -> (r: bool) {
        str_has_prefix(tag, "<|aspect_ratio:") && str_has_suffix(tag, "|>")
    }
}

/// Result of parsing an aspect-ratio name, pinned literal by literal.
pub open spec fn spec_aspect_ratio_from_str(s: Seq<char>) -> Result<
    AspectRatioTag,
    InvalidTagError,
> {
    if s == "ultra_wide"@ {
        Ok(AspectRatioTag::UltraWide)
    } else if s == "wide"@ {
        Ok(AspectRatioTag::Wide)
    } else if s == "square"@ {
        Ok(AspectRatioTag::Square)
    } else if s == "tall"@ {
        Ok(AspectRatioTag::Tall)
    } else if s == "ultra_tall"@ {
        Ok(AspectRatioTag::UltraTall)
    } else {
        Err(InvalidTagError)
    }
}

impl AspectRatioTag {
    /// Parse the user-facing name of an aspect-ratio tag.
    pub fn from_str(s: &str) -> (r: Result<AspectRatioTag, InvalidTagError>)
        ensures
            r == spec_aspect_ratio_from_str(s@),
    {
        if str_eq(s, "ultra_wide") {
            Ok(AspectRatioTag::UltraWide)
        } else if str_eq(s, "wide") {
            Ok(AspectRatioTag::Wide)
        } else if str_eq(s, "square") {
            Ok(AspectRatioTag::Square)
        } else if str_eq(s, "tall") {
            Ok(AspectRatioTag::Tall)
        } else if str_eq(s, "ultra_tall") {
            Ok(AspectRatioTag::UltraTall)
        } else {
            Err(InvalidTagError)
        }
    }
}

/// Content rating the generated tags must respect.
#[derive(Debug, Clone, Copy, PartialEq, Eq, Structural)]
pub enum RatingTag {
    Sfw,
    General,
    Sensitive,
    Nsfw,
    Questionable,
    Explicit,
}

impl SpecialTag for RatingTag {
    open spec fn spec_tag(&self) -> Seq<char> {
        match self {
            RatingTag::Sfw => "<|rating:sfw|>"@,
            RatingTag::General => "<|rating:general|>"@,
            RatingTag::Sensitive => "<|rating:sensitive|>"@,
            RatingTag::Nsfw => "<|rating:nsfw|>"@,
            RatingTag::Questionable => "<|rating:questionable|>"@,
            RatingTag::Explicit => "<|rating:explicit|>"@,
        }
    }

    open spec fn spec_is_special(tag: Seq<char>) -> bool {
        spec_has_prefix(tag, "<|rating:"@) && spec_has_suffix(tag, "|>"@)
    }

    fn to_tag(&self) -> (r: String) {
        match self {
            RatingTag::Sfw => "<|rating:sfw|>".to_owned(),
            RatingTag::General => "<|rating:general|>".to_owned(),
            RatingTag::Sensitive => "<|rating:sensitive|>".to_owned(),
            RatingTag::Nsfw => "<|rating:nsfw|>".to_owned(),
            RatingTag::Questionable => "<|rating:questionable|>".to_owned(),
            RatingTag::Explicit => "<|rating:explicit|>".to_owned(),
        }
    }

    fn is_special(tag: &str) -> (r: bool) {
        str_has_prefix(tag, "<|rating:") && str_has_suffix(tag, "|>")
    }
}

/// Result of parsing a rating name, pinned literal by literal.
pub open spec fn spec_rating_from_str(s: Seq<char>) -> Result<RatingTag, InvalidTagError> {
    if s == "sfw"@ {
        Ok(RatingTag::Sfw)
    } else if s == "general"@ {
        Ok(RatingTag::General)
    } else if s == "sensitive"@ {
        Ok(RatingTag::Sensitive)
    } else if s == "nsfw"@ {
        Ok(RatingTag::Nsfw)
    } else if s == "questionable"@ {
        Ok(RatingTag::Questionable)
    } else if s == "explicit"@ {
        Ok(RatingTag::Explicit)
    } else {
        Err(InvalidTagError)
    }
}

impl RatingTag {
    /// Parse the user-facing name of a rating tag.
    pub fn from_str(s: &str) -> (r: Result<RatingTag, InvalidTagError>)
        ensures
            r == spec_rating_from_str(s@),
    {
        if str_eq(s, "sfw") {
            Ok(RatingTag::Sfw)
        } else if str_eq(s, "general") {
            Ok(RatingTag::General)
        } else if str_eq(s, "sensitive") {
            Ok(RatingTag::Sensitive)
        } else if str_eq(s, "nsfw") {
            Ok(RatingTag::Nsfw)
        } else if str_eq(s, "questionable") {
            Ok(RatingTag::Questionable)
        } else if str_eq(s, "explicit") {
            Ok(RatingTag::Explicit)
        } else {
            Err(InvalidTagError)
        }
    }
}

/// How strongly the model may disclose character identity in its output.
#[derive(Debug, Clone, Copy, PartialEq, Eq, Structural)]
pub enum IdentityTag {
    Off,
    Lax,
    Strict,
}

impl SpecialTag for IdentityTag {
    open spec fn spec_tag(&self) -> Seq<char> {
        match self {
            IdentityTag::Off => "<|identity:none|>"@,
            IdentityTag::Lax => "<|identity:lax|>"@,
            IdentityTag::Strict => "<|identity:strict|>"@,
        }
    }

    open spec fn spec_is_special(tag: Seq<char>) -> bool {
        spec_has_prefix(tag, "<|identity:"@) && spec_has_suffix(tag, "|>"@)
    }

    fn to_tag(&self) -> (r: String) {
        match self {
            IdentityTag::Off => "<|identity:none|>".to_owned(),
            IdentityTag::Lax => "<|identity:lax|>".to_owned(),
            IdentityTag::Strict => "<|identity:strict|>".to_owned(),
        }
    }

    fn is_special(tag: &str) -> (r: bool) {
        str_has_prefix(tag, "<|identity:") && str_has_suffix(tag, "|>")
    }
}

/// Result of parsing an identity-disclosure name, pinned literal by literal.
pub open spec fn spec_identity_from_str(s: Seq<char>) -> Result<IdentityTag, InvalidTagError> {
    if s == "none"@ {
        Ok(IdentityTag::Off)
    } else if s == "lax"@ {
        Ok(IdentityTag::Lax)
    } else if s == "strict"@ {
        Ok(IdentityTag::Strict)
    } else {
        Err(InvalidTagError)
    }
}

impl IdentityTag {
    /// Parse the user-facing name of an identity-disclosure tag.
    pub fn from_str(s: &str) -> (r: Result<IdentityTag, InvalidTagError>)
        ensures
            r == spec_identity_from_str(s@),
    {
        if str_eq(s, "none") {
            Ok(IdentityTag::Off)
        } else if str_eq(s, "lax") {
            Ok(IdentityTag::Lax)
        } else if str_eq(s, "strict") {
            Ok(IdentityTag::Strict)
        } else {
            Err(InvalidTagError)
        }
    }
}

/// Structural tokens that frame a prompt or terminate a sequence; none of them
/// is user-chosen, and all of them are filtered from decoded output.
#[derive(Debug, Clone, Copy, PartialEq, Eq, Structural)]
pub enum ReservedTag {
    Bos,
    Eos,
    CopyrightStart,
    CopyrightEnd,
    CharacterStart,
    CharacterEnd,
    GeneralStart,
    GeneralEnd,
    InputEnd,
}

impl SpecialTag for ReservedTag {
    open spec fn spec_tag(&self) -> Seq<char> {
        match self {
            ReservedTag::Bos => "<|bos|>"@,
            ReservedTag::Eos => "<|eos|>"@,
            ReservedTag::CopyrightStart => "<copyright>"@,
            ReservedTag::CopyrightEnd => "</copyright>"@,
            ReservedTag::CharacterStart => "<character>"@,
            ReservedTag::CharacterEnd => "</character>"@,
            ReservedTag::GeneralStart => "<general>"@,
            ReservedTag::GeneralEnd => "</general>"@,
            ReservedTag::InputEnd => "<|input_end|>"@,
        }
    }

    open spec fn spec_is_special(tag: Seq<char>) -> bool {
        ||| tag == "<|bos|>"@
        ||| tag == "<|eos|>"@
        ||| tag == "<copyright>"@
        ||| tag == "</copyright>"@
        ||| tag == "<character>"@
        ||| tag == "</character>"@
        ||| tag == "<general>"@
        ||| tag == "</general>"@
        ||| tag == "<|input_end|>"@
    }

    fn to_tag(&self) -> (r: String) {
        match self {
            ReservedTag::Bos => "<|bos|>".to_owned(),
            ReservedTag::Eos => "<|eos|>".to_owned(),
            ReservedTag::CopyrightStart => "<copyright>".to_owned(),
            ReservedTag::CopyrightEnd => "</copyright>".to_owned(),
            ReservedTag::CharacterStart => "<character>".to_owned(),
            ReservedTag::CharacterEnd => "</character>".to_owned(),
            ReservedTag::GeneralStart => "<general>".to_owned(),
            ReservedTag::GeneralEnd => "</general>".to_owned(),
            ReservedTag::InputEnd => "<|input_end|>".to_owned(),
        }
    }

    fn is_special(tag: &str) -> (r: bool) {
        str_eq(tag, "<|bos|>") || str_eq(tag, "<|eos|>") || str_eq(tag, "<copyright>") || str_eq(
            tag,
            "</copyright>",
        ) || str_eq(tag, "<character>") || str_eq(tag, "</character>") || str_eq(tag, "<general>")
            || str_eq(tag, "</general>") || str_eq(tag, "<|input_end|>")
    }
}

} // verus!
