//! Pixel-format model and the format-preference algorithm.

use vstd::prelude::*;

verus! {

/// Pixel formats that a presentable surface may report. The two canonical
/// 8-bit unsigned-normalized four-channel orderings and their sRGB
/// variants are modelled exactly, together with the other common surface
/// format; any further format the platform reports is carried as `Other`
/// with a caller-chosen tag (its position in the reported list, say).
/// `Other` formats have no sRGB pairing in this model.
#[derive(Clone, Copy, Debug, PartialEq, Eq, Structural)]
pub enum TextureFormat {
    Rgba8Unorm,
    Rgba8UnormSrgb,
    Bgra8Unorm,
    Bgra8UnormSrgb,
    Rgb10a2Unorm,
    Other(u32),
}

/// The two canonical formats the preference algorithm looks for:
/// 8-bit unsigned-normalized four-channel, RGBA- or BGRA-ordered.
pub open spec fn is_canonical(f: TextureFormat) -> bool {
    f == TextureFormat::Rgba8Unorm || f == TextureFormat::Bgra8Unorm
}

/// Runtime test for `is_canonical`.
pub fn is_canonical_format(f: TextureFormat) -> (r: bool)
    ensures
        r == is_canonical(f),
{
    matches!(f, TextureFormat::Rgba8Unorm | TextureFormat::Bgra8Unorm)
}

/// The sRGB-suffixed variant of a format, or the format itself where the
/// model has no such pairing.
pub open spec fn add_srgb_spec(f: TextureFormat) -> TextureFormat {
    match f {
        TextureFormat::Rgba8Unorm => TextureFormat::Rgba8UnormSrgb,
        TextureFormat::Bgra8Unorm => TextureFormat::Bgra8UnormSrgb,
        _ => f,
    }
}

/// The non-sRGB-suffixed variant of a format, or the format itself where
/// the model has no such pairing.
pub open spec fn remove_srgb_spec(f: TextureFormat) -> TextureFormat {
    match f {
        TextureFormat::Rgba8UnormSrgb => TextureFormat::Rgba8Unorm,
        TextureFormat::Bgra8UnormSrgb => TextureFormat::Bgra8Unorm,
        _ => f,
    }
}

/// Maps a format to its sRGB-suffixed variant.
pub fn add_srgb_suffix(f: TextureFormat) -> (r: TextureFormat)
    ensures
        r == add_srgb_spec(f),
{
    match f {
        TextureFormat::Rgba8Unorm => TextureFormat::Rgba8UnormSrgb,
        TextureFormat::Bgra8Unorm => TextureFormat::Bgra8UnormSrgb,
        _ => f,
    }
}

/// Maps a format to its non-sRGB-suffixed variant.
pub fn remove_srgb_suffix(f: TextureFormat) -> (r: TextureFormat)
    ensures
        r == remove_srgb_spec(f),
{
    match f {
        TextureFormat::Rgba8UnormSrgb => TextureFormat::Rgba8Unorm,
        TextureFormat::Bgra8UnormSrgb => TextureFormat::Bgra8Unorm,
        _ => f,
    }
}

/// Whether some element of the sequence is a canonical format.
pub open spec fn has_canonical(s: Seq<TextureFormat>) -> bool {
    exists|i: int| 0 <= i < s.len() && #[trigger] is_canonical(s[i])
}

/// The earliest canonical format in the sequence (meaningful only when
/// one is present).
pub open spec fn first_canonical(s: Seq<TextureFormat>) -> TextureFormat
    recommends
        has_canonical(s),
    decreases s.len(),
{
    if s.len() == 0 {
        s[0]
    } else if is_canonical(s[0]) {
        s[0]
    } else {
        first_canonical(s.drop_first())
    }
}

/// The preference policy over a surface's reported formats: the earliest
/// canonical format if any occurs, otherwise the first format reported.
pub open spec fn preferred_format_spec(s: Seq<TextureFormat>) -> TextureFormat
    recommends
        s.len() > 0,
{
    if has_canonical(s) {
        first_canonical(s)
    } else {
        s[0]
    }
}

/// The format at the earliest canonical position is the preferred one.
/// This is the first half of the preference policy stated positionally:
/// whenever position `k` holds a canonical format and no earlier position
/// does, the policy selects exactly the format at `k`.
pub proof fn lemma_preferred_is_first_canonical(s: Seq<TextureFormat>, k: int)
    requires
        0 <= k < s.len(),
        is_canonical(s[k]),
        forall|j: int| 0 <= j < k ==> !is_canonical(#[trigger] s[j]),
    ensures
        has_canonical(s),
        preferred_format_spec(s) == s[k],
    decreases k,
{
    assert(has_canonical(s));
    if k == 0 {
    } else {
        let t = s.drop_first();
        assert(!is_canonical(s[0]));
        assert forall|j: int| 0 <= j < k - 1 implies !is_canonical(#[trigger] t[j]) by {
            assert(t[j] == s[j + 1]);
        }
        assert(t[k - 1] == s[k]);
        lemma_preferred_is_first_canonical(t, k - 1);
        assert(first_canonical(s) == first_canonical(t));
    }
}

/// When no canonical format occurs anywhere in a non-empty sequence, the
/// policy falls back to the first format reported.
pub proof fn lemma_preferred_fallback_is_first(s: Seq<TextureFormat>)
    requires
        s.len() > 0,
        forall|i: int| 0 <= i < s.len() ==> !is_canonical(#[trigger] s[i]),
    ensures
        !has_canonical(s),
        preferred_format_spec(s) == s[0],
{
}

/// Format preference is deterministic: two selections made from the same
/// sequence of reported formats agree.
pub proof fn lemma_preferred_format_deterministic(
    s: Seq<TextureFormat>,
    r1: TextureFormat,
    r2: TextureFormat,
)
    requires
        r1 == preferred_format_spec(s),
        r2 == preferred_format_spec(s),
    ensures
        r1 == r2,
{
}

/// Scans the reported formats in order and returns the first canonical
/// one, falling back to the first format reported when none is canonical;
/// an empty report is rejected explicitly.
pub fn preferred_framebuffer_format(formats: &Vec<TextureFormat>) -> (r: Result<
    TextureFormat,
    crate::error::InitError,
>)
    ensures
        formats@.len() == 0 ==> r == Err::<TextureFormat, crate::error::InitError>(
            crate::error::InitError::NoSupportedFormats,
        ),
        formats@.len() > 0 ==> r == Ok::<TextureFormat, crate::error::InitError>(
            preferred_format_spec(formats@),
        ),
{
    let n = formats.len();
    if n == 0 {
        return Err(crate::error::InitError::NoSupportedFormats);
    }
    let mut i: usize = 0;
    while i < n
        invariant
            i <= n,
            n == formats@.len(),
            forall|j: int| 0 <= j < i ==> !is_canonical(#[trigger] formats@[j]),
        decreases n - i,
    {
        let f = formats[i];
        if is_canonical_format(f) {
            proof {
                lemma_preferred_is_first_canonical(formats@, i as int);
            }
            return Ok(f);
        }
        i = i + 1;
    }
    proof {
        lemma_preferred_fallback_is_first(formats@);
    }
    Ok(formats[0])
}

} // verus!
