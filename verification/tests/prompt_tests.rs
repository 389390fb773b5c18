use dartrs::prompt::compose_prompt_v2;
use dartrs::tags::{AspectRatioTag, IdentityTag, LengthTag, RatingTag};

#[test]
fn test_compose_prompt() {
    let prompt = compose_prompt_v2(
        "vocaloid",
        "hatsune miku",
        RatingTag::Sfw,
        AspectRatioTag::Tall,
        LengthTag::Long,
        IdentityTag::Off,
        "1girl, blue hair",
        true,
    );

    assert_eq!(
        prompt,
        "\
<|bos|>\
<copyright>vocaloid</copyright>\
<character>hatsune miku</character>\
<|rating:sfw|><|aspect_ratio:tall|><|length:long|>\
<general>1girl, blue hair<|identity:none|><|input_end|>"
    )
}

#[test]
fn test_compose_prompt_no_completion() {
    let prompt = compose_prompt_v2(
        "vocaloid",
        "hatsune miku",
        RatingTag::Sfw,
        AspectRatioTag::Tall,
        LengthTag::Long,
        IdentityTag::Off,
        "1girl",
        false,
    );

    assert_eq!(
        prompt,
        "\
<|bos|>\
<copyright>vocaloid</copyright>\
<character>hatsune miku</character>\
<|rating:sfw|><|aspect_ratio:tall|><|length:long|>\
<general>1girl"
    )
}

#[test]
fn test_compose_prompt_empty_fields() {
    let prompt = compose_prompt_v2(
        "",
        "",
        RatingTag::Explicit,
        AspectRatioTag::Square,
        LengthTag::VeryShort,
        IdentityTag::Strict,
        "",
        true,
    );

    assert_eq!(
        prompt,
        "\
<|bos|>\
<copyright></copyright>\
<character></character>\
<|rating:explicit|><|aspect_ratio:square|><|length:very_short|>\
<general><|identity:strict|><|input_end|>"
    )
}

#[test]
fn test_compose_prompt_idempotent() {
    let first = compose_prompt_v2(
        "touhou",
        "hakurei reimu",
        RatingTag::General,
        AspectRatioTag::Wide,
        LengthTag::Medium,
        IdentityTag::Lax,
        "1girl, smile",
        true,
    );
    let second = compose_prompt_v2(
        "touhou",
        "hakurei reimu",
        RatingTag::General,
        AspectRatioTag::Wide,
        LengthTag::Medium,
        IdentityTag::Lax,
        "1girl, smile",
        true,
    );

    assert_eq!(first, second);
}
