use vstd::prelude::*;

use vstd::string::StrSliceExecFns;

use crate::types::ImgError;
use crate::types::OutputFormat;
use crate::types::DEFAULT_QUALITY;

verus! {

/// True exactly when `suffix` ends `s`.
pub open spec fn has_suffix(s: Seq<char>, suffix: Seq<char>) -> bool {
    suffix.len() <= s.len() && s.subrange(s.len() - suffix.len(), s.len() as int) == suffix
}

/// True exactly when `suffix` ends `s`, character by character.
fn ends_with_str(s: &str, suffix: &str) -> (r: bool)
    ensures
        r == has_suffix(s@, suffix@),
{
    let n = s.unicode_len();
    let m = suffix.unicode_len();
    if m > n {
        return false;
    }
    let off = n - m;
    let mut i: usize = 0;
    while i < m
        invariant
            i <= m,
            m <= n,
            off == n - m,
            n == s@.len(),
            m == suffix@.len(),
            forall|j: int| 0 <= j < i ==> s@[off + j] == suffix@[j],
        decreases m - i,
    {
        let c1 = s.get_char(off + i);
        let c2 = suffix.get_char(i);
        if c1 != c2 {
            proof {
                assert(s@.subrange(off as int, n as int)[i as int] == s@[off + i]);
            }
            return false;
        }
        i += 1;
    }
    proof {
        assert(s@.subrange(off as int, n as int) =~= suffix@);
    }
    true
}

/// The JPEG quality a request yields: absent defaults to 100, and anything
/// above 100 is clamped to 100 before it reaches the encoder.
pub open spec fn spec_quality(q: Option<u8>) -> u8 {
    match q {
        Option::Some(v) => if v > 100 {
            100
        } else {
            v
        },
        Option::None => DEFAULT_QUALITY,
    }
}

/// Every over-range quality behaves exactly as quality 100 does, and an
/// absent quality defaults to 100.
pub proof fn lemma_quality_clamp(q: u8)
    requires
        q >= 100,
    ensures
        spec_quality(Option::Some(q)) == spec_quality(Option::Some(100)),
        spec_quality(Option::None) == 100,
{
}

/// The format a filename's extension selects, JPEG carrying the clamped
/// quality; an unrecognized extension selects none.
pub open spec fn spec_format_for(name: Seq<char>, quality: Option<u8>) -> Option<OutputFormat> {
    if has_suffix(name, ".jpg"@) {
        Option::Some(OutputFormat::Jpeg(spec_quality(quality)))
    } else if has_suffix(name, ".png"@) {
        Option::Some(OutputFormat::Png)
    } else if has_suffix(name, ".gif"@) {
        Option::Some(OutputFormat::Gif)
    } else {
        Option::None
    }
}

/// The response content type each format is served under.
pub open spec fn content_type_of(format: OutputFormat) -> Seq<char> {
    match format {
        OutputFormat::Jpeg(_) => "image/jpeg"@,
        OutputFormat::Png => "image/png"@,
        OutputFormat::Gif => "image/gif"@,
    }
}

/// None of the pipeline's content types holds the base64 padding character
/// '=', so a data URI built over any of them holds none at all: the
/// no-padding guarantee of the text encoder is unconditional here.
pub proof fn lemma_content_types_free_of_padding(format: OutputFormat)
    ensures
        forall|i: int|
            0 <= i < content_type_of(format).len() ==> content_type_of(format)[i] != '=',
{
    reveal_strlit("image/jpeg");
    reveal_strlit("image/png");
    reveal_strlit("image/gif");
}

/// Selects the output format and the response content type from the
/// requested filename's extension, clamping the JPEG quality; any other
/// extension is rejected before the pipeline runs.
pub fn select_format(filename: &str, quality: Option<u8>) -> (r: Result<
    (OutputFormat, &'static str),
    ImgError,
>)
    ensures
        match r {
            Result::Ok(sel) => spec_format_for(filename@, quality) == Option::Some(sel.0)
                && sel.1@ == content_type_of(sel.0),
            Result::Err(e) => spec_format_for(filename@, quality) is None
                && e is InvalidExtension,
        },
{
    if ends_with_str(filename, ".jpg") {
        let q: u8 = match quality {
            Option::Some(v) => if v > 100 {
                100
            } else {
                v
            },
            Option::None => DEFAULT_QUALITY,
        };
        Result::Ok((OutputFormat::Jpeg(q), "image/jpeg"))
    } else if ends_with_str(filename, ".png") {
        Result::Ok((OutputFormat::Png, "image/png"))
    } else if ends_with_str(filename, ".gif") {
        Result::Ok((OutputFormat::Gif, "image/gif"))
    } else {
        Result::Err(ImgError::InvalidExtension)
    }
}

} // verus!
